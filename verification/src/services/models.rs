//! The answers of the upstream APIs, as far as the bot reads them.

use vstd::prelude::*;

verus! {

/// One description of the weather, as the weather upstream words it.
#[derive(Debug, Clone)]
pub struct WeatherDesc {
    pub value: String,
}

/// The weather at present: the temperature in degrees Celsius and what the
/// upstream says of the sky.
#[derive(Debug, Clone)]
pub struct CurrentCondition {
    pub temp_c: String,
    pub weather_desc: Vec<WeatherDesc>,
}

/// The answer of the weather upstream.
#[derive(Debug, Clone)]
pub struct WeatherData {
    pub current_condition: Vec<CurrentCondition>,
}

/// What the bot tells of the weather: the temperature in degrees Celsius and
/// one description.
#[derive(Debug, Clone)]
pub struct WeatherSnapshot {
    pub temp_c: String,
    pub description: String,
}

/// The content of a [`CurrentCondition`].
pub struct CurrentConditionView {
    pub temp_c: Seq<char>,
    pub weather_desc: Seq<Seq<char>>,
}

/// The content of a [`WeatherData`].
pub struct WeatherDataView {
    pub current_condition: Seq<CurrentConditionView>,
}

/// The content of a [`WeatherSnapshot`].
pub struct WeatherSnapshotView {
    pub temp_c: Seq<char>,
    pub description: Seq<char>,
}

impl View for WeatherDesc {
    type V = Seq<char>;

    open spec fn view(&self) -> Seq<char> {
        self.value@
    }
}

impl View for CurrentCondition {
    type V = CurrentConditionView;

    open spec fn view(&self) -> CurrentConditionView {
        CurrentConditionView {
            temp_c: self.temp_c@,
            weather_desc: Seq::new(self.weather_desc@.len(), |i: int| self.weather_desc@[i]@),
        }
    }
}

impl View for WeatherData {
    type V = WeatherDataView;

    open spec fn view(&self) -> WeatherDataView {
        WeatherDataView {
            current_condition: Seq::new(
                self.current_condition@.len(),
                |i: int| self.current_condition@[i]@,
            ),
        }
    }
}

impl View for WeatherSnapshot {
    type V = WeatherSnapshotView;

    open spec fn view(&self) -> WeatherSnapshotView {
        WeatherSnapshotView { temp_c: self.temp_c@, description: self.description@ }
    }
}

/// The description that stands in where the upstream gave none.
pub open spec fn unknown_description() -> Seq<char> {
    "unknown"@
}

impl WeatherDataView {
    /// The snapshot that the answer holds: the temperature of its first
    /// condition with the first description of that condition, or with
    /// `unknown` where it has none. An answer without a condition holds no
    /// snapshot.
    pub open spec fn snapshot(self) -> Option<WeatherSnapshotView> {
        if self.current_condition.len() == 0 {
            None
        } else {
            let first = self.current_condition[0];
            Some(
                WeatherSnapshotView {
                    temp_c: first.temp_c,
                    description: if first.weather_desc.len() == 0 {
                        unknown_description()
                    } else {
                        first.weather_desc[0]
                    },
                },
            )
        }
    }
}

impl WeatherData {
    /// The snapshot that the answer holds, if it holds one.
    pub fn snapshot(&self) -> (r: Option<WeatherSnapshot>)
        ensures
            match r {
                Some(s) => self@.snapshot() == Some(s@),
                None => self@.snapshot() is None,
            },
    {
        if self.current_condition.len() == 0 {
            return None;
        }
        let first = &self.current_condition[0];
        assert(self@.current_condition[0] == first@);
        let description = if first.weather_desc.len() == 0 {
            "unknown".to_owned()
        } else {
            assert(first@.weather_desc[0] == first.weather_desc@[0]@);
            first.weather_desc[0].value.clone()
        };
        Some(WeatherSnapshot { temp_c: first.temp_c.clone(), description })
    }
}

/// The fields of the joke upstream's answer that the bot reads, each present
/// or not.
#[derive(Debug)]
pub struct JokeFields {
    pub joke: Option<String>,
    pub setup: Option<String>,
    pub delivery: Option<String>,
}

/// A joke: told in one piece, or as a setup and its delivery.
#[derive(Debug)]
pub enum JokeResponse {
    Single { joke: String },
    TwoPart { setup: String, delivery: String },
}

/// The content of a [`JokeFields`].
pub struct JokeFieldsView {
    pub joke: Option<Seq<char>>,
    pub setup: Option<Seq<char>>,
    pub delivery: Option<Seq<char>>,
}

/// The content of a [`JokeResponse`].
pub enum JokeResponseView {
    Single { joke: Seq<char> },
    TwoPart { setup: Seq<char>, delivery: Seq<char> },
}

/// The content of an optional string.
pub open spec fn text_of(s: Option<String>) -> Option<Seq<char>> {
    match s {
        Some(t) => Some(t@),
        None => None,
    }
}

impl View for JokeFields {
    type V = JokeFieldsView;

    open spec fn view(&self) -> JokeFieldsView {
        JokeFieldsView {
            joke: text_of(self.joke),
            setup: text_of(self.setup),
            delivery: text_of(self.delivery),
        }
    }
}

impl View for JokeResponse {
    type V = JokeResponseView;

    open spec fn view(&self) -> JokeResponseView {
        match self {
            JokeResponse::Single { joke } => JokeResponseView::Single { joke: joke@ },
            JokeResponse::TwoPart { setup, delivery } => JokeResponseView::TwoPart {
                setup: setup@,
                delivery: delivery@,
            },
        }
    }
}

impl JokeFieldsView {
    /// The joke that the fields make: the one-piece shape is tried first, the
    /// two-part shape second, and fields that fit neither make none.
    pub open spec fn joke(self) -> Option<JokeResponseView> {
        match (self.joke, self.setup, self.delivery) {
            (Some(joke), _, _) => Some(JokeResponseView::Single { joke }),
            (None, Some(setup), Some(delivery)) => Some(
                JokeResponseView::TwoPart { setup, delivery },
            ),
            _ => None,
        }
    }
}

impl JokeResponseView {
    /// The joke as one text: a two-part joke has its setup and its delivery
    /// on a line each.
    pub open spec fn text(self) -> Seq<char> {
        match self {
            JokeResponseView::Single { joke } => joke,
            JokeResponseView::TwoPart { setup, delivery } => setup + seq!['\n'] + delivery,
        }
    }
}

impl JokeResponse {
    /// The joke that `fields` make, if they make one.
    pub fn from_fields(fields: JokeFields) -> (r: Option<JokeResponse>)
        ensures
            match r {
                Some(j) => fields@.joke() == Some(j@),
                None => fields@.joke() is None,
            },
    {
        match fields.joke {
            Some(joke) => Some(JokeResponse::Single { joke }),
            None => match (fields.setup, fields.delivery) {
                (Some(setup), Some(delivery)) => Some(JokeResponse::TwoPart { setup, delivery }),
                _ => None,
            },
        }
    }

    /// The joke as one text.
    pub fn into_text(self) -> (r: String)
        ensures
            r@ == self@.text(),
    {
        match self {
            JokeResponse::Single { joke } => joke,
            JokeResponse::TwoPart { setup, delivery } => {
                proof {
                    reveal_strlit("\n");
                }
                let mut out = setup;
                out.append("\n");
                out.append(delivery.as_str());
                assert(out@ =~= self@.text());
                out
            },
        }
    }
}

/// What the currency upstream says of a failure.
#[derive(Debug)]
pub struct ErrorData {
    /// The upstream's number for the failure.
    pub code: i32,
    /// The upstream's own words for it.
    pub info: String,
}

/// The answer of the currency upstream. The converted amount is held as the
/// upstream wrote it.
#[derive(Debug)]
pub struct ExchangerateResponse {
    pub success: bool,
    pub result: Option<String>,
    pub error: Option<ErrorData>,
}

/// The content of an [`ErrorData`].
pub struct ErrorDataView {
    pub code: i32,
    pub info: Seq<char>,
}

/// The content of an [`ExchangerateResponse`].
pub struct ExchangerateResponseView {
    pub success: bool,
    pub result: Option<Seq<char>>,
    pub error: Option<ErrorDataView>,
}

impl View for ErrorData {
    type V = ErrorDataView;

    open spec fn view(&self) -> ErrorDataView {
        ErrorDataView { code: self.code, info: self.info@ }
    }
}

impl View for ExchangerateResponse {
    type V = ExchangerateResponseView;

    open spec fn view(&self) -> ExchangerateResponseView {
        ExchangerateResponseView {
            success: self.success,
            result: text_of(self.result),
            error: match self.error {
                Some(e) => Some(e@),
                None => None,
            },
        }
    }
}

} // verus!
