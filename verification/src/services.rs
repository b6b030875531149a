//! The service layer: what is asked of the three upstream APIs, and what their
//! answers mean.
//!
//! Nothing here touches the network. Each operation is a function from what
//! its driver has learned so far, a [`Progress`], to what the driver is to do
//! next, a [`Step`]: send a request, read the body of the response, or stop
//! with the result. The driver begins with [`Progress::Start`] and calls the
//! operation again after each step, with what came of it.

pub mod error;
pub mod models;

pub use error::{ServiceError, ServiceErrorView};
pub use models::{ErrorData, ExchangerateResponse, JokeFields, JokeResponse, WeatherData,
    WeatherSnapshot};

use crate::trusted::{percent_encode, percent_encoded, uppercase, uppercased};
use models::{ExchangerateResponseView, JokeFieldsView, WeatherDataView, WeatherSnapshotView};
use vstd::prelude::*;

verus! {

/// What came of sending a request.
#[derive(Debug)]
pub enum Sent {
    /// It did not get through; `cause` says why.
    Failed { cause: String },
    /// A response arrived, with this HTTP status.
    Answered { status: u16 },
}

/// What the driver of an operation has learned so far.
#[derive(Debug)]
pub enum Progress<T> {
    /// Nothing yet.
    Start,
    /// What came of sending the request.
    Sent(Sent),
    /// What came of reading the body of the response as JSON: its content, or
    /// why it could not be read.
    Body(Result<T, String>),
}

/// What the driver of an operation is to do next.
#[derive(Debug)]
pub enum Step<T> {
    /// Send a GET request to `url`.
    Get { url: String },
    /// Read the body of the response as JSON.
    ReadBody,
    /// Nothing more: this is the result.
    Done(Result<T, ServiceError>),
}

/// The content of a [`Sent`].
pub enum SentView {
    Failed { cause: Seq<char> },
    Answered { status: u16 },
}

/// The content of a [`Progress`].
pub enum ProgressView<T> {
    Start,
    Sent(SentView),
    Body(Result<T, Seq<char>>),
}

/// The content of a [`Step`].
pub enum StepView<T> {
    Get { url: Seq<char> },
    ReadBody,
    Done(Result<T, ServiceErrorView>),
}

impl View for Sent {
    type V = SentView;

    open spec fn view(&self) -> SentView {
        match self {
            Sent::Failed { cause } => SentView::Failed { cause: cause@ },
            Sent::Answered { status } => SentView::Answered { status: *status },
        }
    }
}

impl<T: View> View for Progress<T> {
    type V = ProgressView<T::V>;

    open spec fn view(&self) -> ProgressView<T::V> {
        match self {
            Progress::Start => ProgressView::Start,
            Progress::Sent(sent) => ProgressView::Sent(sent@),
            Progress::Body(Ok(body)) => ProgressView::Body(Ok(body@)),
            Progress::Body(Err(cause)) => ProgressView::Body(Err(cause@)),
        }
    }
}

impl<T: View> View for Step<T> {
    type V = StepView<T::V>;

    open spec fn view(&self) -> StepView<T::V> {
        match self {
            Step::Get { url } => StepView::Get { url: url@ },
            Step::ReadBody => StepView::ReadBody,
            Step::Done(Ok(value)) => StepView::Done(Ok(value@)),
            Step::Done(Err(e)) => StepView::Done(Err(e@)),
        }
    }
}

/// The HTTP status of a resource that the upstream does not have.
pub const NOT_FOUND: u16 = 404;

/// The HTTP status of a response that holds what was asked for.
pub const OK: u16 = 200;

/// The address of the weather of `city`: the city percent-encoded in the
/// path, and the report asked for as JSON.
pub open spec fn weather_url(city: Seq<char>) -> Seq<char> {
    "https://wttr.in/"@ + percent_encoded(vstd::utf8::encode_utf8(city)) + "?format=j1"@
}

/// The address of a joke: of any category, in safe mode, in one piece or in
/// two parts.
pub open spec fn joke_url() -> Seq<char> {
    "https://v2.jokeapi.dev/joke/Any?safe-mode&type=single,twopart"@
}

/// The address of a conversion of `amount` from the currency with the code
/// `from` to the one with the code `to`, with the credential `token`.
pub open spec fn currency_url(
    token: Seq<char>,
    amount: Seq<char>,
    from: Seq<char>,
    to: Seq<char>,
) -> Seq<char> {
    "https://api.exchangerate.host/convert?access_key="@ + token + "&from="@ + from + "&to="@ + to
        + "&amount="@ + amount
}

/// The name of the credential of the currency upstream.
pub open spec fn exchange_token_name() -> Seq<char> {
    "EXCHANGERATE_TOKEN"@
}

/// What [`ApiService::fetch_json`] answers: the request to `url` is sent, a
/// failure of the transport ends the call, any response has its body read,
/// and the body is the result or, where it is not of the expected shape, the
/// failure.
pub open spec fn fetch_step<T>(url: Seq<char>, progress: ProgressView<T>) -> StepView<T> {
    match progress {
        ProgressView::Start => StepView::Get { url },
        ProgressView::Sent(SentView::Failed { cause }) => StepView::Done(
            Err(ServiceErrorView::Network { url, source: cause }),
        ),
        ProgressView::Sent(SentView::Answered { .. }) => StepView::ReadBody,
        ProgressView::Body(Err(cause)) => StepView::Done(
            Err(ServiceErrorView::Parse { url, source: cause }),
        ),
        ProgressView::Body(Ok(body)) => StepView::Done(Ok(body)),
    }
}

/// The resource that the weather upstream is asked for.
pub open spec fn city_resource() -> Seq<char> {
    "City"@
}

/// The field of the weather upstream's answer that holds the conditions.
pub open spec fn condition_field() -> Seq<char> {
    "current_condition"@
}

/// What [`ApiService::get_weather`] answers. The status decides before any
/// body is read: 404 means that the city is unknown, 200 that the body is to
/// be read, and every other status is unexpected.
pub open spec fn weather_step(
    city: Seq<char>,
    progress: ProgressView<WeatherDataView>,
) -> StepView<WeatherSnapshotView> {
    let url = weather_url(city);
    match progress {
        ProgressView::Start => StepView::Get { url },
        ProgressView::Sent(SentView::Failed { cause }) => StepView::Done(
            Err(ServiceErrorView::Network { url, source: cause }),
        ),
        ProgressView::Sent(SentView::Answered { status }) => if status == NOT_FOUND {
            StepView::Done(
                Err(ServiceErrorView::NotFound { resource: city_resource(), identifier: city }),
            )
        } else if status == OK {
            StepView::ReadBody
        } else {
            StepView::Done(Err(ServiceErrorView::UnexpectedStatus { url, status }))
        },
        ProgressView::Body(Err(cause)) => StepView::Done(
            Err(ServiceErrorView::Parse { url, source: cause }),
        ),
        ProgressView::Body(Ok(data)) => match data.snapshot() {
            Some(snapshot) => StepView::Done(Ok(snapshot)),
            None => StepView::Done(
                Err(ServiceErrorView::MissingField { field: condition_field(), url }),
            ),
        },
    }
}

/// Why an answer of the joke upstream that holds no joke is refused.
pub open spec fn no_joke_cause() -> Seq<char> {
    "the answer holds neither a joke nor a setup and a delivery"@
}

/// What [`ApiService::get_joke`] answers: the joke as one text, once the body
/// is read, or the failure where its fields make no joke.
pub open spec fn joke_step(progress: ProgressView<JokeFieldsView>) -> StepView<Seq<char>> {
    match fetch_step(joke_url(), progress) {
        StepView::Get { url } => StepView::Get { url },
        StepView::ReadBody => StepView::ReadBody,
        StepView::Done(Err(e)) => StepView::Done(Err(e)),
        StepView::Done(Ok(fields)) => match fields.joke() {
            Some(joke) => StepView::Done(Ok(joke.text())),
            None => StepView::Done(
                Err(ServiceErrorView::Parse { url: joke_url(), source: no_joke_cause() }),
            ),
        },
    }
}

/// The field of the currency upstream's answer that holds the converted
/// amount.
pub open spec fn result_field() -> Seq<char> {
    "result"@
}

/// What an answer of the currency upstream means: the converted amount where
/// it reports success and holds one, and else the failure.
pub open spec fn exchange_result(url: Seq<char>, data: ExchangerateResponseView) -> Result<
    Seq<char>,
    ServiceErrorView,
> {
    if data.success {
        match data.result {
            Some(result) => Ok(result),
            None => Err(ServiceErrorView::MissingField { field: result_field(), url }),
        }
    } else {
        Err(
            ServiceErrorView::ApiError {
                url,
                message: match data.error {
                    Some(e) => e.info,
                    None => error::unknown_api_error(),
                },
            },
        )
    }
}

/// What [`ApiService::convert_currency`] answers. Without a credential the
/// call fails at once, whatever the progress, and asks for no request. With
/// one, the request names the two codes in capitals.
pub open spec fn currency_step(
    token: Option<Seq<char>>,
    amount: Seq<char>,
    from: Seq<char>,
    to: Seq<char>,
    progress: ProgressView<ExchangerateResponseView>,
) -> StepView<Seq<char>> {
    match token {
        None => StepView::Done(
            Err(ServiceErrorView::MissingToken { token_name: exchange_token_name() }),
        ),
        Some(token) => {
            let url = currency_url(token, amount, uppercased(from), uppercased(to));
            match fetch_step(url, progress) {
                StepView::Get { url } => StepView::Get { url },
                StepView::ReadBody => StepView::ReadBody,
                StepView::Done(Err(e)) => StepView::Done(Err(e)),
                StepView::Done(Ok(data)) => StepView::Done(exchange_result(url, data)),
            }
        },
    }
}

/// The service layer of the bot: it holds the credential of the currency
/// upstream and knows how each upstream is asked and answered.
pub struct ApiService {
    exchange_token: Option<String>,
}

impl ApiService {
    /// The credential of the currency upstream, if one is configured.
    pub closed spec fn exchange_token(&self) -> Option<Seq<char>> {
        models::text_of(self.exchange_token)
    }

    /// A service layer with the credential `exchange_token`, if there is one.
    pub fn new(exchange_token: Option<String>) -> (r: Self)
        ensures
            r.exchange_token() == models::text_of(exchange_token),
    {
        ApiService { exchange_token }
    }

    /// Tells whether the credential of the currency upstream is configured.
    pub fn has_exchange_token(&self) -> (r: bool)
        ensures
            r == self.exchange_token().is_some(),
    {
        self.exchange_token.is_some()
    }

    /// The address of a conversion of `amount` from the currency with the
    /// code `from` to the one with the code `to`, with the credential `token`.
    pub fn currency_url(token: &str, amount: &str, from: &str, to: &str) -> (r: String)
        ensures
            r@ == currency_url(token@, amount@, from@, to@),
    {
        let mut url = "https://api.exchangerate.host/convert?access_key=".to_owned();
        url.append(token);
        url.append("&from=");
        url.append(from);
        url.append("&to=");
        url.append(to);
        url.append("&amount=");
        url.append(amount);
        assert(url@ =~= currency_url(token@, amount@, from@, to@));
        url
    }

    /// One step of a GET request to `url` whose response is read as JSON.
    pub fn fetch_json<T: View>(url: &str, progress: Progress<T>) -> (r: Step<T>)
        ensures
            r@ == fetch_step(url@, progress@),
    {
        match progress {
            Progress::Start => Step::Get { url: url.to_owned() },
            Progress::Sent(Sent::Failed { cause }) => Step::Done(
                Err(ServiceError::Network { url: url.to_owned(), source: cause }),
            ),
            Progress::Sent(Sent::Answered { .. }) => Step::ReadBody,
            Progress::Body(Err(cause)) => Step::Done(
                Err(ServiceError::Parse { url: url.to_owned(), source: cause }),
            ),
            Progress::Body(Ok(body)) => Step::Done(Ok(body)),
        }
    }

    /// One step of asking for the weather in `city`.
    pub fn get_weather(&self, city: &str, progress: Progress<WeatherData>) -> (r: Step<
        WeatherSnapshot,
    >)
        ensures
            r@ == weather_step(city@, progress@),
            progress@ == ProgressView::<WeatherDataView>::Sent(
                SentView::Answered { status: NOT_FOUND },
            ) ==> r@ == StepView::<WeatherSnapshotView>::Done(
                Err(ServiceErrorView::NotFound { resource: city_resource(), identifier: city@ }),
            ),
            r is ReadBody <==> progress@ == ProgressView::<WeatherDataView>::Sent(
                SentView::Answered { status: OK },
            ),
    {
        let mut url = "https://wttr.in/".to_owned();
        url.append(percent_encode(city).as_str());
        url.append("?format=j1");
        assert(url@ =~= weather_url(city@));
        match progress {
            Progress::Start => Step::Get { url },
            Progress::Sent(Sent::Failed { cause }) => Step::Done(
                Err(ServiceError::Network { url, source: cause }),
            ),
            Progress::Sent(Sent::Answered { status }) => if status == NOT_FOUND {
                Step::Done(Err(ServiceError::not_found("City", city)))
            } else if status == OK {
                Step::ReadBody
            } else {
                Step::Done(Err(ServiceError::UnexpectedStatus { url, status }))
            },
            Progress::Body(Err(cause)) => Step::Done(
                Err(ServiceError::Parse { url, source: cause }),
            ),
            Progress::Body(Ok(data)) => match data.snapshot() {
                Some(snapshot) => Step::Done(Ok(snapshot)),
                None => Step::Done(
                    Err(ServiceError::missing_field("current_condition", url.as_str())),
                ),
            },
        }
    }

    /// One step of asking for a joke.
    pub fn get_joke(&self, progress: Progress<JokeFields>) -> (r: Step<String>)
        ensures
            r@ == joke_step(progress@),
            forall|joke: Seq<char>, setup: Option<Seq<char>>, delivery: Option<Seq<char>>|
                progress@ == ProgressView::Body(
                    Ok(JokeFieldsView { joke: Some(joke), setup, delivery }),
                ) ==> r@ == StepView::<Seq<char>>::Done(Ok(joke)),
            forall|setup: Seq<char>, delivery: Seq<char>|
                progress@ == ProgressView::Body(
                    Ok(JokeFieldsView { joke: None, setup: Some(setup), delivery: Some(delivery) }),
                ) ==> r@ == StepView::<Seq<char>>::Done(Ok(setup + seq!['\n'] + delivery)),
    {
        let url = "https://v2.jokeapi.dev/joke/Any?safe-mode&type=single,twopart";
        match Self::fetch_json(url, progress) {
            Step::Get { url } => Step::Get { url },
            Step::ReadBody => Step::ReadBody,
            Step::Done(Err(e)) => Step::Done(Err(e)),
            Step::Done(Ok(fields)) => match JokeResponse::from_fields(fields) {
                Some(joke) => Step::Done(Ok(joke.into_text())),
                None => Step::Done(
                    Err(
                        ServiceError::parse(
                            url,
                            "the answer holds neither a joke nor a setup and a delivery",
                        ),
                    ),
                ),
            },
        }
    }

    /// One step of converting `amount` from the currency `from` to the
    /// currency `to`. The amount is passed on as it is written.
    pub fn convert_currency(
        &self,
        amount: &str,
        from: &str,
        to: &str,
        progress: Progress<ExchangerateResponse>,
    ) -> (r: Step<String>)
        ensures
            r@ == currency_step(self.exchange_token(), amount@, from@, to@, progress@),
            self.exchange_token() is None ==> r@ == StepView::<Seq<char>>::Done(
                Err(ServiceErrorView::MissingToken { token_name: exchange_token_name() }),
            ),
            r is Get ==> self.exchange_token() is Some,
    {
        let token = match &self.exchange_token {
            Some(token) => token,
            None => {
                return Step::Done(Err(ServiceError::missing_token("EXCHANGERATE_TOKEN")));
            },
        };
        let url = Self::currency_url(
            token.as_str(),
            amount,
            uppercase(from).as_str(),
            uppercase(to).as_str(),
        );
        match Self::fetch_json(url.as_str(), progress) {
            Step::Get { url } => Step::Get { url },
            Step::ReadBody => Step::ReadBody,
            Step::Done(Err(e)) => Step::Done(Err(e)),
            Step::Done(Ok(data)) => if data.success {
                match data.result {
                    Some(result) => Step::Done(Ok(result)),
                    None => Step::Done(Err(ServiceError::missing_field("result", url.as_str()))),
                }
            } else {
                let error = match &data.error {
                    Some(e) => ServiceError::api_error(url.as_str(), Some(e.info.as_str())),
                    None => ServiceError::api_error(url.as_str(), None),
                };
                Step::Done(Err(error))
            },
        }
    }
}

} // verus!
