use vstd::prelude::*;

verus! {

/// The failure taxonomy of the liquidity pipeline. Every fallible step
/// returns one of these variants; the message names the failing stage.
#[derive(Debug)]
pub enum Error {
    Io(String),
    Config(String),
    Keypair(String),
    RpcClient(String),
    InvalidInput(String),
    Math(String),
    InvalidTokenAccount(String),
    Api(String),
    InsufficientBalance(String),
    Other(String),
}

/// The variant of an `Error`, without its message. Contracts that only
/// promise which kind of failure occurs speak of this.
#[derive(Clone, Copy, PartialEq, Eq, Structural, Debug)]
pub enum ErrorKind {
    Io,
    Config,
    Keypair,
    RpcClient,
    InvalidInput,
    Math,
    InvalidTokenAccount,
    Api,
    InsufficientBalance,
    Other,
}

impl Error {
    pub open spec fn kind(self) -> ErrorKind {
        match self {
            Error::Io(_) => ErrorKind::Io,
            Error::Config(_) => ErrorKind::Config,
            Error::Keypair(_) => ErrorKind::Keypair,
            Error::RpcClient(_) => ErrorKind::RpcClient,
            Error::InvalidInput(_) => ErrorKind::InvalidInput,
            Error::Math(_) => ErrorKind::Math,
            Error::InvalidTokenAccount(_) => ErrorKind::InvalidTokenAccount,
            Error::Api(_) => ErrorKind::Api,
            Error::InsufficientBalance(_) => ErrorKind::InsufficientBalance,
            Error::Other(_) => ErrorKind::Other,
        }
    }

    /// The message carried by the error.
    pub fn message(&self) -> (r: &String)
        ensures
            r@ == self.spec_message(),
    {
        match self {
            Error::Io(m) => m,
            Error::Config(m) => m,
            Error::Keypair(m) => m,
            Error::RpcClient(m) => m,
            Error::InvalidInput(m) => m,
            Error::Math(m) => m,
            Error::InvalidTokenAccount(m) => m,
            Error::Api(m) => m,
            Error::InsufficientBalance(m) => m,
            Error::Other(m) => m,
        }
    }

    pub open spec fn spec_message(self) -> Seq<char> {
        match self {
            Error::Io(m) => m@,
            Error::Config(m) => m@,
            Error::Keypair(m) => m@,
            Error::RpcClient(m) => m@,
            Error::InvalidInput(m) => m@,
            Error::Math(m) => m@,
            Error::InvalidTokenAccount(m) => m@,
            Error::Api(m) => m@,
            Error::InsufficientBalance(m) => m@,
            Error::Other(m) => m@,
        }
    }
}

} // verus!
