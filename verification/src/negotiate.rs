//! Connection negotiation decisions: which transport path a configuration
//! selects, which authentication exchange to run, and the STARTTLS upgrade
//! sequence driven line by line.
use vstd::prelude::*;
use crate::text::str_eq;
use crate::types::ImapError;

verus! {

/// The transport path a configuration selects.
#[derive(Clone, Copy, PartialEq, Eq, Structural, Debug)]
pub enum SecurityMode {
    /// TLS handshake immediately after the TCP connect.
    Tls,
    /// Plain TCP, then an in-band upgrade to TLS.
    StartTls,
    /// Plain TCP with no confidentiality.
    Plain,
}

/// The mode a security string names, when it names one.
pub open spec fn mode_of(s: Seq<char>) -> Option<SecurityMode> {
    if s == "tls"@ {
        Some(SecurityMode::Tls)
    } else if s == "starttls"@ {
        Some(SecurityMode::StartTls)
    } else if s == "none"@ {
        Some(SecurityMode::Plain)
    } else {
        None
    }
}

/// Parse the configured security mode; any value outside the accepted set
/// is a configuration error naming the value and the accepted set.
pub fn parse_security_mode(s: &str) -> (r: Result<SecurityMode, ImapError>)
    ensures
        r matches Ok(m) ==> mode_of(s@) == Some(m),
        r is Err <==> mode_of(s@) is None,
        r matches Err(e) ==> (e matches ImapError::Config { detail } && detail@
            == "Unknown security mode: "@ + s@ + ". Use \"tls\", \"starttls\", or \"none\"."@),
{
    if str_eq(s, "tls") {
        Ok(SecurityMode::Tls)
    } else if str_eq(s, "starttls") {
        Ok(SecurityMode::StartTls)
    } else if str_eq(s, "none") {
        Ok(SecurityMode::Plain)
    } else {
        let mut detail = "Unknown security mode: ".to_owned();
        detail.append(s);
        detail.append(". Use \"tls\", \"starttls\", or \"none\".");
        Err(ImapError::Config { detail })
    }
}

/// The authentication exchange a method string selects.
#[derive(Clone, Copy, PartialEq, Eq, Structural, Debug)]
pub enum AuthChoice {
    /// The XOAUTH2 SASL exchange.
    XOAuth2,
    /// The plain LOGIN exchange.
    Login,
}

/// Pick the authentication exchange: `"oauth2"` selects XOAUTH2, anything
/// else the standard LOGIN.
pub fn choose_auth(method: &str) -> (r: AuthChoice)
    ensures
        r == if method@ == "oauth2"@ {
            AuthChoice::XOAuth2
        } else {
            AuthChoice::Login
        },
{
    if str_eq(method, "oauth2") {
        AuthChoice::XOAuth2
    } else {
        AuthChoice::Login
    }
}

/// What a configuration commits a connection attempt to: the transport
/// path and the authentication exchange.
pub fn connection_plan(config: &crate::types::ImapConfig) -> (r: Result<
    (SecurityMode, AuthChoice),
    ImapError,
>)
    ensures
        r matches Ok((m, a)) ==> mode_of(config.security@) == Some(m) && a == (
        if config.auth_method@ == "oauth2"@ {
            AuthChoice::XOAuth2
        } else {
            AuthChoice::Login
        }),
        r is Err <==> mode_of(config.security@) is None,
        r matches Err(e) ==> e is Config,
{
    let mode = match parse_security_mode(config.security.as_str()) {
        Ok(m) => m,
        Err(e) => {
            return Err(e);
        },
    };
    Ok((mode, choose_auth(config.auth_method.as_str())))
}

/// Whether a server line holds the bytes `OK` somewhere.
pub open spec fn has_ok(line: Seq<u8>) -> bool {
    exists|i: int| 0 <= i && i + 2 <= line.len() && #[trigger] line[i] == 79 && line[i + 1] == 75
}

/// Check a server line for a positive (`OK`) response.
pub fn line_has_ok(line: &[u8]) -> (r: bool)
    ensures
        r == has_ok(line@),
{
    let n = line.len();
    if n < 2 {
        return false;
    }
    let mut i: usize = 0;
    while i <= n - 2
        invariant
            2 <= n == line@.len(),
            i <= n - 1,
            forall|j: int| 0 <= j < i ==> !(#[trigger] line@[j] == 79 && line@[j + 1] == 75),
        decreases n - i,
    {
        if line[i] == 79 && line[i + 1] == 75 {
            return true;
        }
        i = i + 1;
    }
    false
}

/// Where a STARTTLS upgrade stands.
#[derive(Clone, Copy, PartialEq, Eq, Structural, Debug)]
pub enum TlsNegotiation {
    /// Waiting for the server greeting.
    AwaitGreeting,
    /// STARTTLS was sent; waiting for the server's answer.
    AwaitTlsOk,
    /// Both lines were positive; the TLS handshake may begin.
    Handshaking,
    /// A line was not a positive response; the upgrade is abandoned.
    Failed,
}

/// What the caller must do next during a STARTTLS upgrade.
#[derive(Clone, Copy, PartialEq, Eq, Structural, Debug)]
pub enum TlsAction {
    /// Send the STARTTLS command.
    SendStartTls,
    /// Perform the TLS handshake on the upgraded stream.
    StartHandshake,
}

/// The STARTTLS upgrade's transition function: each received server line
/// either advances the upgrade with its next action or abandons it. No
/// action — in particular not the STARTTLS command itself — is ever issued
/// for a line that lacks a positive response.
pub open spec fn spec_starttls_step(state: TlsNegotiation, line: Seq<u8>) -> (
    TlsNegotiation,
    Option<TlsAction>,
) {
    match state {
        TlsNegotiation::AwaitGreeting => if has_ok(line) {
            (TlsNegotiation::AwaitTlsOk, Some(TlsAction::SendStartTls))
        } else {
            (TlsNegotiation::Failed, None)
        },
        TlsNegotiation::AwaitTlsOk => if has_ok(line) {
            (TlsNegotiation::Handshaking, Some(TlsAction::StartHandshake))
        } else {
            (TlsNegotiation::Failed, None)
        },
        TlsNegotiation::Handshaking => (TlsNegotiation::Handshaking, None),
        TlsNegotiation::Failed => (TlsNegotiation::Failed, None),
    }
}

/// Advance a STARTTLS upgrade on one received server line.
pub fn starttls_step(state: TlsNegotiation, line: &[u8]) -> (r: (
    TlsNegotiation,
    Option<TlsAction>,
))
    ensures
        r == spec_starttls_step(state, line@),
{
    match state {
        TlsNegotiation::AwaitGreeting => if line_has_ok(line) {
            (TlsNegotiation::AwaitTlsOk, Some(TlsAction::SendStartTls))
        } else {
            (TlsNegotiation::Failed, None)
        },
        TlsNegotiation::AwaitTlsOk => if line_has_ok(line) {
            (TlsNegotiation::Handshaking, Some(TlsAction::StartHandshake))
        } else {
            (TlsNegotiation::Failed, None)
        },
        TlsNegotiation::Handshaking => (TlsNegotiation::Handshaking, None),
        TlsNegotiation::Failed => (TlsNegotiation::Failed, None),
    }
}

/// Law: a greeting without a positive response fails the upgrade at once,
/// and the STARTTLS command is only ever sent for a positive greeting.
pub proof fn lemma_starttls_needs_ok_greeting(line: Seq<u8>)
    ensures
        !has_ok(line) ==> spec_starttls_step(TlsNegotiation::AwaitGreeting, line) == (
            TlsNegotiation::Failed,
            None::<TlsAction>,
        ),
        spec_starttls_step(TlsNegotiation::AwaitGreeting, line).1 == Some(TlsAction::SendStartTls)
            ==> has_ok(line),
{
}

} // verus!
