use vstd::prelude::*;

verus! {

/// Failure of a request against a collection store.
#[derive(Debug, PartialEq, Eq, Structural, Clone, Copy)]
pub enum AppError {
    /// No record has the requested id.
    NotFound,
    /// No project has the requested id.
    ProjectNotFound,
    /// A record with the same id is already stored.
    DuplicateId,
}

/// The text that a response carries for an error.
pub open spec fn error_message(e: AppError) -> Seq<char> {
    match e {
        AppError::NotFound => "记录不存在"@,
        AppError::ProjectNotFound => "项目不存在"@,
        AppError::DuplicateId => "记录id重复"@,
    }
}

impl AppError {
    pub fn message(&self) -> (r: String)
        ensures
            r@ == error_message(*self),
    {
        match self {
            AppError::NotFound => String::from_str("记录不存在"),
            AppError::ProjectNotFound => String::from_str("项目不存在"),
            AppError::DuplicateId => String::from_str("记录id重复"),
        }
    }
}

/// Status marker carried by every response envelope.
#[derive(Debug, PartialEq, Eq, Structural, Clone, Copy)]
pub enum AppResponseCode {
    /// The request succeeded.
    Success,
    /// The request failed; the message says why.
    Failure,
    /// The requester may not do this.
    Unauthorized,
}

/// The envelope of every response: a status marker, a message (empty on
/// success) and the operation's result, if any.
#[derive(Debug)]
pub struct AppResponse<T> {
    pub code: AppResponseCode,
    pub msg: String,
    pub data: Option<T>,
}

impl<T> AppResponse<T> {
    /// A successful envelope with no message and no result.
    pub fn new() -> (r: Self)
        ensures
            r.code == AppResponseCode::Success,
            r.msg@ == Seq::<char>::empty(),
            r.data is None,
    {
        AppResponse { code: AppResponseCode::Success, msg: String::new(), data: None }
    }

    /// A successful envelope carrying `data`.
    pub fn ok(data: T) -> (r: Self)
        ensures
            r.code == AppResponseCode::Success,
            r.msg@ == Seq::<char>::empty(),
            r.data == Some(data),
    {
        AppResponse { code: AppResponseCode::Success, msg: String::new(), data: Some(data) }
    }

    /// A failed envelope with the message `msg`.
    pub fn err(msg: String) -> (r: Self)
        ensures
            r.code == AppResponseCode::Failure,
            r.msg == msg,
            r.data is None,
    {
        AppResponse { code: AppResponseCode::Failure, msg, data: None }
    }

    /// The envelope for the outcome of a store operation: its result on
    /// success, the error's message on failure.
    pub fn from_result(r: Result<T, AppError>) -> (out: Self)
        ensures
            match r {
                Ok(v) => out.code == AppResponseCode::Success && out.msg@ == Seq::<char>::empty()
                    && out.data == Some(v),
                Err(e) => out.code == AppResponseCode::Failure && out.msg@ == error_message(e)
                    && out.data is None,
            },
    {
        match r {
            Ok(v) => AppResponse::ok(v),
            Err(e) => AppResponse::err(e.message()),
        }
    }

    pub fn code(self, code: AppResponseCode) -> (r: Self)
        ensures
            r.code == code,
            r.msg == self.msg,
            r.data == self.data,
    {
        AppResponse { code, msg: self.msg, data: self.data }
    }

    pub fn msg(self, msg: String) -> (r: Self)
        ensures
            r.code == self.code,
            r.msg == msg,
            r.data == self.data,
    {
        AppResponse { code: self.code, msg, data: self.data }
    }

    pub fn data(self, data: T) -> (r: Self)
        ensures
            r.code == self.code,
            r.msg == self.msg,
            r.data == Some(data),
    {
        AppResponse { code: self.code, msg: self.msg, data: Some(data) }
    }
}

} // verus!
