//! The user-facing message: fixed, friendly prose printed to the terminal
//! after a failure, interpolating the crate name, the log file path, and —
//! only when non-empty — the homepage and authors of the crate.

use vstd::prelude::*;
use vstd::string::StringExecFns;
use crate::{Metadata, MetadataView};

verus! {

/// The whole terminal message, character for character. The homepage and
/// authors lines are present exactly when their metadata fields are
/// non-empty; the log path appears verbatim, quoted.
pub open spec fn user_message_text(path: Seq<char>, meta: MetadataView) -> Seq<char> {
    "Well, this is embarrassing.\n\n"@ + meta.name
        + " had a problem and crashed. To help us diagnose the problem you can send us a crash report.\n\n"@
        + "There is a log file of the crash at \""@ + path
        + "\". Please submit an issue or email with the subject of \""@ + meta.name
        + " Crash Report\" and include the log as an attachment.\n\n"@ + (if meta.homepage.len()
        > 0 {
        "- Homepage: "@ + meta.homepage + "\n"@
    } else {
        Seq::<char>::empty()
    }) + (if meta.authors.len() > 0 {
        "- Authors: "@ + meta.authors + "\n"@
    } else {
        Seq::<char>::empty()
    })
        + "\nWe take privacy seriously, and do not perform any automated error collection. In order to improve the software, we rely on people to submit reports.\n\n"@
        + "Thank you!\n"@
}

/// Builds the terminal message for `meta` with the crash log at `log_path`.
/// Pure: printing it, with color, is the caller's affair.
pub fn render_user_message(log_path: &str, meta: &Metadata) -> (r: String)
    ensures
        r@ == user_message_text(log_path@, meta@),
{
    let mut out = String::from_str("Well, this is embarrassing.\n\n");
    out.append(meta.name.as_str());
    out.append(
        " had a problem and crashed. To help us diagnose the problem you can send us a crash report.\n\n",
    );
    out.append("There is a log file of the crash at \"");
    out.append(log_path);
    out.append("\". Please submit an issue or email with the subject of \"");
    out.append(meta.name.as_str());
    out.append(" Crash Report\" and include the log as an attachment.\n\n");
    if !meta.homepage.as_str().is_empty() {
        out.append("- Homepage: ");
        out.append(meta.homepage.as_str());
        out.append("\n");
    }
    if !meta.authors.as_str().is_empty() {
        out.append("- Authors: ");
        out.append(meta.authors.as_str());
        out.append("\n");
    }
    out.append(
        "\nWe take privacy seriously, and do not perform any automated error collection. In order to improve the software, we rely on people to submit reports.\n\n",
    );
    out.append("Thank you!\n");
    assert(out@ =~= user_message_text(log_path@, meta@));
    out
}

} // verus!
