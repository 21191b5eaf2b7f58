//! The shape of an API response: a code, and either data or an error
//! message.

use std::borrow::Cow;
use std::marker::PhantomData;
use vstd::prelude::*;

verus! {

pub type StrCow = Cow<'static, str>;

pub const DEFAULT_SUCCESS_CODE: &'static str = "0";

pub const DEFAULT_ERROR_CODE: &'static str = "-1";

pub const DEFAULT_ERROR_MESSAGE: &'static str = "Internal server error";

/// Builds an error response. What is not set takes its default.
pub struct ApiJsonErrorBuilder<T> {
    code: Option<StrCow>,
    error: Option<StrCow>,
    _phantom: PhantomData<T>,
}

/// Standard Api response formatter.
pub enum ApiJson<T> {
    Data { code: Option<StrCow>, data: Option<T> },
    Error { code: Option<StrCow>, error: Option<StrCow> },
}

/// A response as it is written out: the code always, the data and the
/// message only where there is one.
pub struct ApiJsonSerializable<'a, T> {
    pub code: &'a str,
    pub data: Option<&'a T>,
    pub error: Option<&'a str>,
}

/// How a value is written as JSON.
#[derive(Clone, Copy, Debug, PartialEq, Eq, Hash)]
pub enum JsonMode {
    Normal,
    Pretty,
}

/// The text of `value`, or `default` where there is none.
pub open spec fn text_or(value: Option<StrCow>, default: Seq<char>) -> Seq<char> {
    match value {
        Some(text) => text@,
        None => default,
    }
}

/// The text of `value`, where there is one.
pub open spec fn text_of(value: Option<StrCow>) -> Option<Seq<char>> {
    match value {
        Some(text) => Some(text@),
        None => None,
    }
}

fn as_str<'a>(text: &'a StrCow) -> (out: &'a str)
    ensures
        out@ == text@,
{
    match text {
        Cow::Borrowed(s) => s,
        Cow::Owned(s) => s.as_str(),
    }
}

impl<T> ApiJsonErrorBuilder<T> {
    /// The code that was set, if any.
    pub closed spec fn code_set(&self) -> Option<StrCow> {
        self.code
    }

    /// The message that was set, if any.
    pub closed spec fn error_set(&self) -> Option<StrCow> {
        self.error
    }

    pub fn new() -> (out: Self)
        ensures
            out.code_set() is None,
            out.error_set() is None,
    {
        Self { code: None, error: None, _phantom: PhantomData }
    }

    /// Sets the code.
    pub fn code(self, code: StrCow) -> (out: Self)
        ensures
            out.code_set() == Some(code),
            out.error_set() == self.error_set(),
    {
        let mut out = self;
        out.code = Some(code);
        out
    }

    /// Sets the message.
    pub fn error(self, error: StrCow) -> (out: Self)
        ensures
            out.code_set() == self.code_set(),
            out.error_set() == Some(error),
    {
        let mut out = self;
        out.error = Some(error);
        out
    }

    /// The error response: the code and the message that were set, or the
    /// defaults `-1` and `Internal server error`.
    pub fn build(self) -> (out: ApiJson<T>)
        ensures
            out matches ApiJson::Error { code: Some(code), error: Some(error) } && code@ == text_or(
                self.code_set(),
                DEFAULT_ERROR_CODE@,
            ) && error@ == text_or(self.error_set(), DEFAULT_ERROR_MESSAGE@),
    {
        let code = match self.code {
            Some(code) => code,
            None => Cow::Borrowed(DEFAULT_ERROR_CODE),
        };
        let error = match self.error {
            Some(error) => error,
            None => Cow::Borrowed(DEFAULT_ERROR_MESSAGE),
        };
        ApiJson::Error { code: Some(code), error: Some(error) }
    }
}

impl<T> ApiJson<T> {
    /// A response that carries `data`, with the default code.
    pub fn ok(data: T) -> (out: Self)
        ensures
            out == (ApiJson::Data { data: Some(data), code: None }),
    {
        Self::Data { data: Some(data), code: None }
    }

    /// A response that carries `data`, with the given code.
    pub fn data_with_code(data: T, code: StrCow) -> (out: Self)
        ensures
            out == (ApiJson::Data { data: Some(data), code: Some(code) }),
    {
        Self::Data { data: Some(data), code: Some(code) }
    }

    pub fn error_builder() -> (out: ApiJsonErrorBuilder<T>)
        ensures
            out.code_set() is None,
            out.error_set() is None,
    {
        ApiJsonErrorBuilder::<T>::new()
    }

    /// The code that the response is written with: its own, or `0` for data
    /// and `-1` for an error.
    pub open spec fn written_code(&self) -> Seq<char> {
        match *self {
            ApiJson::Data { code, .. } => text_or(code, DEFAULT_SUCCESS_CODE@),
            ApiJson::Error { code, .. } => text_or(code, DEFAULT_ERROR_CODE@),
        }
    }

    /// The message that the response is written with: none for data.
    pub open spec fn written_message(&self) -> Option<Seq<char>> {
        match *self {
            ApiJson::Data { .. } => None,
            ApiJson::Error { error, .. } => text_of(error),
        }
    }

    /// The response as it is written out.
    pub fn as_serializable(&self) -> (out: ApiJsonSerializable<'_, T>)
        ensures
            out.code@ == self.written_code(),
            match out.error {
                Some(message) => self.written_message() == Some(message@),
                None => self.written_message() is None,
            },
            match *self {
                ApiJson::Data { data: Some(data), .. } => out.data == Some(&data),
                ApiJson::Data { data: None, .. } => out.data is None,
                ApiJson::Error { .. } => out.data is None,
            },
    {
        match self {
            Self::Data { code, data } => ApiJsonSerializable {
                code: match code {
                    Some(code) => as_str(code),
                    None => DEFAULT_SUCCESS_CODE,
                },
                error: None,
                data: data.as_ref(),
            },
            Self::Error { code, error } => ApiJsonSerializable {
                code: match code {
                    Some(code) => as_str(code),
                    None => DEFAULT_ERROR_CODE,
                },
                error: match error {
                    Some(error) => Some(as_str(error)),
                    None => None,
                },
                data: None,
            },
        }
    }
}

impl ApiJson<()> {
    /// Convenience method to build error without specifying generic type parameter
    pub fn unit_error_builder() -> (out: ApiJsonErrorBuilder<()>)
        ensures
            out.code_set() is None,
            out.error_set() is None,
    {
        ApiJsonErrorBuilder::new()
    }

    /// A response that carries nothing, with the default code.
    pub fn no_content() -> (out: Self)
        ensures
            out == (ApiJson::Data { data: Some(()), code: None }),
    {
        Self::Data { data: Some(()), code: None }
    }

    /// The error response with the default code and message.
    pub fn default_error() -> (out: Self)
        ensures
            out == (ApiJson::<()>::Error {
                code: Some(Cow::Borrowed(DEFAULT_ERROR_CODE)),
                error: Some(Cow::Borrowed(DEFAULT_ERROR_MESSAGE)),
            }),
    {
        Self::Error {
            code: Some(Cow::Borrowed(DEFAULT_ERROR_CODE)),
            error: Some(Cow::Borrowed(DEFAULT_ERROR_MESSAGE)),
        }
    }
}

impl JsonMode {
    /// Whether the JSON is written over several indented lines.
    pub fn is_pretty(self) -> (out: bool)
        ensures
            out == (self is Pretty),
    {
        match self {
            JsonMode::Normal => false,
            JsonMode::Pretty => true,
        }
    }
}

} // verus!
