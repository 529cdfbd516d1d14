//! Failures of the peer-watcher component.

use vstd::prelude::*;

verus! {

/// Mathematical model of an [`Error`]: the same variants, with the carried
/// description as a character sequence.
#[verifier::ext_equal]
pub enum ErrorV {
    Io(Seq<char>),
    NameLookup(Seq<char>),
    NotifyError(Seq<char>),
    Other(Seq<char>),
}

/// A failure of the watcher, carrying a rendered description of the
/// underlying cause.
///
/// `Io` is a failure to open or read the watched file; `NameLookup` is a
/// failure to resolve one peer line to a socket address; `NotifyError` is a
/// transient failure to establish the filesystem watch ("not yet
/// watchable"); `Other` carries any failure outside this component's own
/// taxonomy, passed through so the watch loop can classify it as fatal.
#[derive(Debug, Clone)]
pub enum Error {
    Io(String),
    NameLookup(String),
    NotifyError(String),
    Other(String),
}

impl View for Error {
    type V = ErrorV;

    open spec fn view(&self) -> ErrorV {
        match self {
            Error::Io(s) => ErrorV::Io(s@),
            Error::NameLookup(s) => ErrorV::NameLookup(s@),
            Error::NotifyError(s) => ErrorV::NotifyError(s@),
            Error::Other(s) => ErrorV::Other(s@),
        }
    }
}

impl PartialEq for Error {
    fn eq(&self, other: &Error) -> (r: bool) {
        match (self, other) {
            (Error::Io(a), Error::Io(b)) => {
                let r = *a == *b;
                proof {
                    if r {
                        assert(self@ =~= other@);
                    }
                }
                r
            }
            (Error::NameLookup(a), Error::NameLookup(b)) => {
                let r = *a == *b;
                proof {
                    if r {
                        assert(self@ =~= other@);
                    }
                }
                r
            }
            (Error::NotifyError(a), Error::NotifyError(b)) => {
                let r = *a == *b;
                proof {
                    if r {
                        assert(self@ =~= other@);
                    }
                }
                r
            }
            (Error::Other(a), Error::Other(b)) => {
                let r = *a == *b;
                proof {
                    if r {
                        assert(self@ =~= other@);
                    }
                }
                r
            }
            _ => false,
        }
    }
}

impl vstd::std_specs::cmp::PartialEqSpecImpl for Error {
    open spec fn obeys_eq_spec() -> bool {
        true
    }

    open spec fn eq_spec(&self, other: &Error) -> bool {
        self@ == other@
    }
}

impl Eq for Error {

}

} // verus!
