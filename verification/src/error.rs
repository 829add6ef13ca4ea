//! Errors of the library, and the lines that report errors and successes.
use crate::paint::{ansi_paint, owo_red, TermColor};
use vstd::prelude::*;

verus! {

#[verifier::external_type_specification]
#[verifier::external_body]
pub struct ExBaseDirectoriesError(xdg::BaseDirectoriesError);

#[verifier::external_type_specification]
#[verifier::external_body]
pub struct ExIoError(std::io::Error);

/// What can go wrong in the library's own work.
#[derive(Debug)]
pub enum KoushinError {
    /// The configuration directories could not be determined.
    Xdg(xdg::BaseDirectoriesError),
    /// A configuration file could not be placed.
    Io(std::io::Error),
    /// The authorization callback carried no code.
    MissingAuthorizationCode,
    /// The path of the authorization callback is not ASCII text.
    UnreadableCallback,
}

/// Turns a failure to determine the configuration directories into the
/// library's error, and keeps a success as it is.
pub fn from_xdg_result<T>(r: Result<T, xdg::BaseDirectoriesError>) -> (out: Result<T, KoushinError>)
    ensures
        match r {
            Ok(v) => out matches Ok(w) && w == v,
            Err(e) => out matches Err(KoushinError::Xdg(f)) && f == e,
        },
{
    match r {
        Ok(v) => Ok(v),
        Err(e) => Err(KoushinError::Xdg(e)),
    }
}

/// Turns an input/output failure into the library's error, and keeps a
/// success as it is.
pub fn from_io_result<T>(r: Result<T, std::io::Error>) -> (out: Result<T, KoushinError>)
    ensures
        match r {
            Ok(v) => out matches Ok(w) && w == v,
            Err(e) => out matches Err(KoushinError::Io(f)) && f == e,
        },
{
    match r {
        Ok(v) => Ok(v),
        Err(e) => Err(KoushinError::Io(e)),
    }
}

/// The line that reports an error: "Error:" in red (as `owo-colors` paints
/// it), a space, then the message.
pub fn error_report(message: &str) -> (r: String)
    ensures
        r@ == crate::paint::owo_foreground(crate::paint::red_code(), "Error:"@) + seq![' ']
            + message@,
{
    let mut r = owo_red("Error:");
    r.append(" ");
    r.append(message);
    proof {
        reveal_strlit(" ");
    }
    r
}

/// The line that reports the failure of a command: "Error:" in red (as
/// `ansi_term` paints it), a space, then the message.
pub fn failure_report(message: &str) -> (r: String)
    ensures
        r@ == crate::paint::sgr(crate::paint::red_code()) + "Error:"@ + crate::paint::sgr(seq!['0'])
            + seq![' '] + message@,
{
    let mut r = ansi_paint(TermColor::Red, "Error:");
    r.append(" ");
    r.append(message);
    proof {
        reveal_strlit(" ");
    }
    r
}

/// The line that announces a successful update, in green.
pub fn updated_notice() -> (r: String)
    ensures
        r@ == crate::paint::sgr(crate::paint::green_code()) + "更新されました!"@ + crate::paint::sgr(
            seq!['0'],
        ),
{
    ansi_paint(TermColor::Green, "更新されました!")
}

/// The line that announces a refreshed access token, in cyan.
pub fn refreshed_notice() -> (r: String)
    ensures
        r@ == crate::paint::sgr(crate::paint::cyan_code()) + "Access token refreshed!"@
            + crate::paint::sgr(seq!['0']),
{
    ansi_paint(TermColor::Cyan, "Access token refreshed!")
}

} // verus!
