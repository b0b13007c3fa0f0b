//! Small string helpers shared across the crate.

use vstd::prelude::*;

verus! {

/// Character-wise equality of two string slices.
pub fn str_eq(a: &str, b: &str) -> (r: bool)
    ensures
        r == (a@ == b@),
{
    a.to_owned().eq(&b.to_owned())
}

/// An inline PowerShell snippet wrapped so the console speaks UTF-8 before
/// the snippet runs.
pub fn powershell_wrapped(script: &str) -> (r: String)
    ensures
        r@ == "& { chcp 65001 | Out-Null; [Console]::OutputEncoding = [System.Text.Encoding]::GetEncoding('utf-8'); "@
            + script@ + " }"@,
{
    let mut out = "& { chcp 65001 | Out-Null; [Console]::OutputEncoding = [System.Text.Encoding]::GetEncoding('utf-8'); ".to_owned();
    out.append(script);
    out.append(" }");
    proof {
        assert(out@ =~= "& { chcp 65001 | Out-Null; [Console]::OutputEncoding = [System.Text.Encoding]::GetEncoding('utf-8'); "@
            + script@ + " }"@);
    }
    out
}

} // verus!
