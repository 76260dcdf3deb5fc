//! What can go wrong while a client is served.

use vstd::prelude::*;

use crate::reply::ReplyError;

verus! {

/// The step of the exchange that a failure interrupted.
#[derive(Copy, Clone, Debug, PartialEq, Eq, Structural)]
pub enum Context {
    ReadMethods,
    GetMethods,
    ReplyMethodNotAcceptable,
    ReplyMethod,
    ReadUserLen,
    GetUsername,
    ReadPassLen,
    GetPassword,
    ConvertUsername,
    ConvertPassword,
    NoAuthModule,
    ReplyAuthSuccess,
    ReplyAuthNotAcceptable,
    WriteSuccess,
    WriteReply,
    FlushReply,
    MalformedRequest,
    TargetAddrEmpty,
    InvalidReplyIp,
    ResolveDns,
}

impl Context {
    /// The message that stands for the step in an error report.
    pub open spec fn text(self) -> Seq<char> {
        match self {
            Context::ReadMethods => "Can't read methods"@,
            Context::GetMethods => "Can't get methods."@,
            Context::ReplyMethodNotAcceptable => "Can't reply with method not acceptable."@,
            Context::ReplyMethod => "Can't reply with method auth-none"@,
            Context::ReadUserLen => "Can't read user len"@,
            Context::GetUsername => "Can't get username."@,
            Context::ReadPassLen => "Can't read pass len"@,
            Context::GetPassword => "Can't get password."@,
            Context::ConvertUsername => "Failed to convert username"@,
            Context::ConvertPassword => "Failed to convert password"@,
            Context::NoAuthModule => "No auth module"@,
            Context::ReplyAuthSuccess => "Can't reply auth success"@,
            Context::ReplyAuthNotAcceptable => "Can't reply with auth method not acceptable."@,
            Context::WriteSuccess => "Can't write successful reply"@,
            Context::WriteReply => "Can't write the reply!"@,
            Context::FlushReply => "Can't flush the reply!"@,
            Context::MalformedRequest => "Malformed request"@,
            Context::TargetAddrEmpty => "target_addr empty"@,
            Context::InvalidReplyIp => "invalid reply ip"@,
            Context::ResolveDns => "Can't resolve the domain name"@,
        }
    }

    /// The message that stands for the step in an error report.
    pub fn message(self) -> (r: &'static str)
        ensures
            r@ == self.text(),
    {
        match self {
            Context::ReadMethods => "Can't read methods",
            Context::GetMethods => "Can't get methods.",
            Context::ReplyMethodNotAcceptable => "Can't reply with method not acceptable.",
            Context::ReplyMethod => "Can't reply with method auth-none",
            Context::ReadUserLen => "Can't read user len",
            Context::GetUsername => "Can't get username.",
            Context::ReadPassLen => "Can't read pass len",
            Context::GetPassword => "Can't get password.",
            Context::ConvertUsername => "Failed to convert username",
            Context::ConvertPassword => "Failed to convert password",
            Context::NoAuthModule => "No auth module",
            Context::ReplyAuthSuccess => "Can't reply auth success",
            Context::ReplyAuthNotAcceptable => "Can't reply with auth method not acceptable.",
            Context::WriteSuccess => "Can't write successful reply",
            Context::WriteReply => "Can't write the reply!",
            Context::FlushReply => "Can't flush the reply!",
            Context::MalformedRequest => "Malformed request",
            Context::TargetAddrEmpty => "target_addr empty",
            Context::InvalidReplyIp => "invalid reply ip",
            Context::ResolveDns => "Can't resolve the domain name",
        }
    }
}

/// Why serving a client stopped.
#[derive(Debug, PartialEq, Eq)]
pub enum SocksError {
    /// A socket operation failed.
    Io,
    /// None of these methods, which the client offered, will do.
    AuthMethodUnacceptable(Vec<u8>),
    /// The client speaks this version of the protocol.
    UnsupportedSocksVersion(u8),
    /// The domain name has this many bytes, which one length octet cannot hold.
    ExceededMaxDomainLen(usize),
    /// The client's credentials are malformed.
    AuthenticationFailed(String),
    /// The client's credentials were turned down.
    AuthenticationRejected(String),
    /// The request failed in a way that the protocol has a reply code for.
    ReplyError(ReplyError),
    /// The named step failed.
    Other(Context),
}

/// The value that a [`SocksError`] stands for.
#[verifier::ext_equal]
pub enum ErrorView {
    Io,
    AuthMethodUnacceptable(Seq<u8>),
    UnsupportedSocksVersion(u8),
    ExceededMaxDomainLen(usize),
    AuthenticationFailed(Seq<char>),
    AuthenticationRejected(Seq<char>),
    ReplyError(ReplyError),
    Other(Context),
}

impl View for SocksError {
    type V = ErrorView;

    open spec fn view(&self) -> ErrorView {
        match *self {
            SocksError::Io => ErrorView::Io,
            SocksError::AuthMethodUnacceptable(methods) => ErrorView::AuthMethodUnacceptable(
                methods@,
            ),
            SocksError::UnsupportedSocksVersion(v) => ErrorView::UnsupportedSocksVersion(v),
            SocksError::ExceededMaxDomainLen(n) => ErrorView::ExceededMaxDomainLen(n),
            SocksError::AuthenticationFailed(s) => ErrorView::AuthenticationFailed(s@),
            SocksError::AuthenticationRejected(s) => ErrorView::AuthenticationRejected(s@),
            SocksError::ReplyError(e) => ErrorView::ReplyError(e),
            SocksError::Other(c) => ErrorView::Other(c),
        }
    }
}

/// An error stands for what it says: its kind, and what it holds.
pub proof fn error_parts(error: SocksError)
    ensures
        match error {
            SocksError::Io => error@ == ErrorView::Io,
            SocksError::AuthMethodUnacceptable(methods) => error@
                == ErrorView::AuthMethodUnacceptable(methods@),
            SocksError::UnsupportedSocksVersion(version) => error@
                == ErrorView::UnsupportedSocksVersion(version),
            SocksError::ExceededMaxDomainLen(n) => error@ == ErrorView::ExceededMaxDomainLen(n),
            SocksError::AuthenticationFailed(text) => error@
                == ErrorView::AuthenticationFailed(text@),
            SocksError::AuthenticationRejected(text) => error@
                == ErrorView::AuthenticationRejected(text@),
            SocksError::ReplyError(reply) => error@ == ErrorView::ReplyError(reply),
            SocksError::Other(context) => error@ == ErrorView::Other(context),
        },
{
}

/// How an operation outside this library failed.
#[derive(Copy, Clone, Debug, PartialEq, Eq, Structural)]
pub enum Fault {
    /// A socket operation failed.
    Io,
    /// The failure has a reply code.
    Reply(ReplyError),
    /// The named step failed.
    Other(Context),
}

impl Fault {
    /// The error that passes the failure on as it is.
    pub open spec fn error(self) -> ErrorView {
        match self {
            Fault::Io => ErrorView::Io,
            Fault::Reply(e) => ErrorView::ReplyError(e),
            Fault::Other(c) => ErrorView::Other(c),
        }
    }

    /// The error that passes the failure on as it is.
    pub fn into_error(self) -> (r: SocksError)
        ensures
            r@ == self.error(),
            match self {
                Fault::Io => r == SocksError::Io,
                Fault::Reply(e) => r == SocksError::ReplyError(e),
                Fault::Other(c) => r == SocksError::Other(c),
            },
    {
        match self {
            Fault::Io => SocksError::Io,
            Fault::Reply(e) => SocksError::ReplyError(e),
            Fault::Other(c) => SocksError::Other(c),
        }
    }
}

/// A failure is passed on as what it is, and as nothing else.
pub proof fn fault_passed_on(fault: Fault)
    ensures
        match fault {
            Fault::Io => fault.error() == ErrorView::Io,
            Fault::Reply(reply) => fault.error() == ErrorView::ReplyError(reply),
            Fault::Other(context) => fault.error() == ErrorView::Other(context),
        },
{
}

} // verus!
