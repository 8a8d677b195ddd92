//! What the child process is started with.

use vstd::prelude::*;
use vstd::string::*;

verus! {

/// The parameters that the child process is started with.
#[derive(Debug, Clone, PartialEq, Eq)]
pub struct LaunchConfig {
    /// Where the model lies.
    pub model_path: String,
    /// The numeric precision that the model runs in.
    pub dtype: String,
    /// The path of the socket at which the child is to listen.
    pub uds_path: String,
    /// Where the child sends its telemetry, if anywhere.
    pub otlp_endpoint: Option<String>,
}

/// The mathematical value of a [`LaunchConfig`].
pub struct LaunchConfigView {
    pub model_path: Seq<char>,
    pub dtype: Seq<char>,
    pub uds_path: Seq<char>,
    pub otlp_endpoint: Option<Seq<char>>,
}

/// The characters of a text that may be left out.
pub open spec fn optional_text(text: Option<String>) -> Option<Seq<char>> {
    match text {
        Some(given) => Some(given@),
        None => None,
    }
}

impl View for LaunchConfig {
    type V = LaunchConfigView;

    open spec fn view(&self) -> LaunchConfigView {
        LaunchConfigView {
            model_path: self.model_path@,
            dtype: self.dtype@,
            uds_path: self.uds_path@,
            otlp_endpoint: optional_text(self.otlp_endpoint),
        }
    }
}

impl LaunchConfigView {
    /// The parameters that are made of the given texts.
    pub open spec fn of(
        model_path: Seq<char>,
        dtype: Seq<char>,
        uds_path: Seq<char>,
        otlp_endpoint: Option<Seq<char>>,
    ) -> LaunchConfigView {
        LaunchConfigView { model_path, dtype, uds_path, otlp_endpoint }
    }

    /// The first thing that is wrong with the parameters, if anything is:
    /// each of them must be given, that is, must not be empty; the telemetry
    /// endpoint may be left out, but not be empty.
    pub open spec fn flaw(self) -> Option<Seq<char>> {
        if self.model_path.len() == 0 {
            Some("the model path is empty"@)
        } else if self.dtype.len() == 0 {
            Some("the dtype is empty"@)
        } else if self.uds_path.len() == 0 {
            Some("the socket path is empty"@)
        } else if self.otlp_endpoint == Some(Seq::<char>::empty()) {
            Some("the telemetry endpoint is empty"@)
        } else {
            None
        }
    }
}

impl LaunchConfig {
    /// Looks for the first thing that is wrong with the parameters.
    pub fn flaw(&self) -> (found: Option<String>)
        ensures
            match self@.flaw() {
                Some(text) => found matches Some(told) && told@ == text,
                None => found is None,
            },
    {
        if self.model_path.as_str().is_empty() {
            return Some(String::from_str("the model path is empty"));
        }
        if self.dtype.as_str().is_empty() {
            return Some(String::from_str("the dtype is empty"));
        }
        if self.uds_path.as_str().is_empty() {
            return Some(String::from_str("the socket path is empty"));
        }
        match &self.otlp_endpoint {
            Some(endpoint) => {
                if endpoint.as_str().is_empty() {
                    assert(endpoint@ =~= Seq::<char>::empty());
                    return Some(String::from_str("the telemetry endpoint is empty"));
                }
            },
            None => {},
        }
        None
    }
}

} // verus!
