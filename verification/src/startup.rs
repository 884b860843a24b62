//! What the command line asks for.

use vstd::prelude::*;

verus! {

/// How to listen for clients.
#[derive(Debug)]
pub enum Listen {
    /// Plain TCP on this address.
    Plain { addr: String },
    /// TLS on this address, with the certificates and the key in these files.
    Tls { addr: String, cert: String, key: String },
}

/// A way of listening as contracts see it.
pub enum ListenView {
    Plain { addr: Seq<char> },
    Tls { addr: Seq<char>, cert: Seq<char>, key: Seq<char> },
}

impl View for Listen {
    type V = ListenView;

    open spec fn view(&self) -> ListenView {
        match self {
            Listen::Plain { addr } => ListenView::Plain { addr: addr@ },
            Listen::Tls { addr, cert, key } => ListenView::Tls {
                addr: addr@,
                cert: cert@,
                key: key@,
            },
        }
    }
}

/// Why the command line cannot be used.
#[derive(Clone, Copy, Debug, PartialEq, Eq, Structural)]
pub enum StartupError {
    /// No address to listen on was given.
    MissingAddress,
    /// This many arguments were given, which is neither one nor three.
    UnexpectedArguments(usize),
}

/// The way of listening that the arguments after the program's name ask for:
/// one argument is an address for plain TCP; three are an address, a
/// certificate file and a key file for TLS.
pub open spec fn listen_spec(args: Seq<Seq<char>>) -> Result<ListenView, StartupError> {
    if args.len() == 0 {
        Err(StartupError::MissingAddress)
    } else if args.len() == 1 {
        Ok(ListenView::Plain { addr: args[0] })
    } else if args.len() == 3 {
        Ok(ListenView::Tls { addr: args[0], cert: args[1], key: args[2] })
    } else {
        Err(StartupError::UnexpectedArguments(args.len() as usize))
    }
}

/// A startup result with the way of listening taken by its view.
pub open spec fn listen_view(res: Result<Listen, StartupError>) -> Result<
    ListenView,
    StartupError,
> {
    match res {
        Ok(listen) => Ok(listen@),
        Err(fault) => Err(fault),
    }
}

/// Decides from the arguments after the program's name how to listen.
pub fn listen_from_args(args: Vec<String>) -> (res: Result<Listen, StartupError>)
    ensures
        listen_view(res) == listen_spec(args.deep_view()),
{
    let mut args = args;
    let ghost given = args.deep_view();
    let count: usize = args.len();
    assert(given.len() == count);
    if count == 0 {
        Err(StartupError::MissingAddress)
    } else if count == 1 {
        assert(given[0] == args@[0]@);
        match args.pop() {
            Some(addr) => Ok(Listen::Plain { addr }),
            None => Err(StartupError::MissingAddress),
        }
    } else if count == 3 {
        assert(given[0] == args@[0]@ && given[1] == args@[1]@ && given[2] == args@[2]@);
        let key = args.pop();
        let cert = args.pop();
        let addr = args.pop();
        match (addr, cert, key) {
            (Some(addr), Some(cert), Some(key)) => Ok(Listen::Tls { addr, cert, key }),
            _ => Err(StartupError::MissingAddress),
        }
    } else {
        Err(StartupError::UnexpectedArguments(count))
    }
}

} // verus!
