//! The argument of the currency command: an amount and two currency codes.

use crate::number::{is_amount, is_amount_text};
use crate::text::{is_blank, is_word, lemma_words_after_blank, lemma_words_after_word,
    lemma_words_are_words, split_whitespace, texts, words};
use vstd::prelude::*;

verus! {

/// Whether `args` is the argument of a conversion: three words, the first of
/// them an amount, that is a number which is positive and finite. The two
/// codes are not looked at: an unknown one is for the upstream to refuse.
pub open spec fn is_currency_request(args: Seq<char>) -> bool {
    words(args).len() == 3 && is_amount(words(args)[0])
}

/// A conversion that is asked for: an amount and the codes of two currencies,
/// each as it was written.
#[derive(Clone, Debug)]
pub struct CurrencyRequest {
    pub amount: String,
    pub from: String,
    pub to: String,
}

/// The content of a [`CurrencyRequest`].
pub struct CurrencyRequestView {
    pub amount: Seq<char>,
    pub from: Seq<char>,
    pub to: Seq<char>,
}

impl View for CurrencyRequest {
    type V = CurrencyRequestView;

    open spec fn view(&self) -> CurrencyRequestView {
        CurrencyRequestView { amount: self.amount@, from: self.from@, to: self.to@ }
    }
}

impl CurrencyRequestView {
    /// Whether the request is well formed: its amount is a number which is
    /// positive and finite, and its amount and its codes are words.
    pub open spec fn wf(self) -> bool {
        &&& is_word(self.amount)
        &&& is_amount(self.amount)
        &&& is_word(self.from)
        &&& is_word(self.to)
    }
}

/// The conversion that `args` asks for, where it is the argument of one.
pub open spec fn request_of(args: Seq<char>) -> Option<CurrencyRequestView> {
    if is_currency_request(args) {
        Some(
            CurrencyRequestView {
                amount: words(args)[0],
                from: words(args)[1],
                to: words(args)[2],
            },
        )
    } else {
        None
    }
}

impl CurrencyRequest {
    /// Reads the argument of the currency command. What comes back is well
    /// formed; an argument that is not an amount and two codes gives nothing.
    pub fn parse(args: &str) -> (r: Option<Self>)
        ensures
            match r {
                Some(request) => request_of(args@) == Some(request@) && request@.wf(),
                None => request_of(args@) is None,
            },
    {
        match parse_currency_args(args.to_owned()) {
            Ok(parts) => {
                proof {
                    lemma_words_are_words(args@);
                    assert(texts(parts@)[0] == parts@[0]@);
                    assert(texts(parts@)[1] == parts@[1]@);
                    assert(texts(parts@)[2] == parts@[2]@);
                    assert(is_word(words(args@)[0]));
                    assert(is_word(words(args@)[1]));
                    assert(is_word(words(args@)[2]));
                }
                Some(
                    CurrencyRequest {
                        amount: parts[0].clone(),
                        from: parts[1].clone(),
                        to: parts[2].clone(),
                    },
                )
            },
            Err(_) => None,
        }
    }
}

/// Splits the argument of the currency command into the amount, the code of
/// the currency to convert from and the code of the one to convert to, each
/// as it is written.
pub fn parse_currency_args(args: String) -> (r: Result<Vec<String>, ()>)
    ensures
        r is Ok <==> is_currency_request(args@),
        r matches Ok(parts) ==> texts(parts@) == words(args@) && parts@.len() == 3 && is_amount(
            parts@[0]@,
        ),
{
    let parts = split_whitespace(args.as_str());
    if parts.len() != 3 {
        assert(texts(parts@).len() == parts@.len());
        return Err(());
    }
    assert(texts(parts@)[0] == parts@[0]@);
    if !is_amount_text(parts[0].as_str()) {
        return Err(());
    }
    assert(texts(parts@).len() == parts@.len());
    Ok(parts)
}

/// An amount and two words, with white space between them and possibly around
/// them, are the argument of a conversion, and its three words are these.
pub proof fn lemma_well_formed_request(
    amount: Seq<char>,
    from: Seq<char>,
    to: Seq<char>,
    lead: Seq<char>,
    gap1: Seq<char>,
    gap2: Seq<char>,
    trail: Seq<char>,
)
    requires
        is_word(amount),
        is_amount(amount),
        is_word(from),
        is_word(to),
        is_blank(lead),
        is_blank(gap1) && gap1.len() > 0,
        is_blank(gap2) && gap2.len() > 0,
        is_blank(trail),
    ensures
        words(lead + amount + gap1 + from + gap2 + to + trail) == seq![amount, from, to],
        is_currency_request(lead + amount + gap1 + from + gap2 + to + trail),
        request_of(lead + amount + gap1 + from + gap2 + to + trail) == Some(
            CurrencyRequestView { amount, from, to },
        ),
{
    let s3 = to + trail;
    let s2 = from + (gap2 + s3);
    let s1 = amount + (gap1 + s2);
    let all = lead + amount + gap1 + from + gap2 + to + trail;
    assert(all == lead + s1);
    assert(gap1[0] == (gap1 + s2)[0]);
    assert(gap2[0] == (gap2 + s3)[0]);
    assert(crate::text::space()(gap1[0]));
    assert(crate::text::space()(gap2[0]));
    if trail.len() > 0 {
        assert(crate::text::space()(trail[0]));
    }
    lemma_words_after_blank(trail, Seq::empty());
    assert(trail + Seq::<char>::empty() == trail);
    assert(words(trail) == Seq::<Seq<char>>::empty());
    lemma_words_after_word(to, trail);
    lemma_words_after_blank(gap2, s3);
    lemma_words_after_word(from, gap2 + s3);
    lemma_words_after_blank(gap1, s2);
    lemma_words_after_word(amount, gap1 + s2);
    lemma_words_after_blank(lead, s1);
    assert(words(all) == seq![amount, from, to]);
}

} // verus!
