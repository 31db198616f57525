use vstd::prelude::*;

verus! {

/// The envelope of every answer: either a payload or an error message.
pub struct ApiResponse<T> {
    pub success: bool,
    pub data: Option<T>,
    pub error: Option<String>,
}

impl<T> ApiResponse<T> {
    /// Exactly one of payload and error is present, and `success` says which.
    pub open spec fn wf(&self) -> bool {
        &&& self.success <==> self.data is Some
        &&& self.data is Some <==> self.error is None
    }

    /// A failed answer whose message is `msg`.
    pub open spec fn failed_with(&self, msg: Seq<char>) -> bool {
        &&& self.wf()
        &&& !self.success
        &&& self.error->0@ == msg
    }

    /// A successful answer whose payload satisfies `p`.
    pub open spec fn succeeded_with(&self, p: spec_fn(T) -> bool) -> bool {
        &&& self.wf()
        &&& self.success
        &&& p(self.data->0)
    }

    pub fn success(data: T) -> (r: Self)
        ensures
            r.wf(),
            r.success,
            r.data == Some(data),
    {
        ApiResponse { success: true, data: Some(data), error: None }
    }

    pub fn error(error: &str) -> (r: Self)
        ensures
            r.failed_with(error@),
    {
        ApiResponse { success: false, data: None, error: Some(error.to_owned()) }
    }
}

} // verus!
