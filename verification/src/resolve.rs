//! The type resolver: reconcile the type detected from a file's byte prefix
//! with the extension declared by its name into a single outcome. A live-run
//! disagreement suspends as a `Conflict`, which the caller settles by asking
//! the user and handing the chosen `ConflictResolution` back in.

use vstd::prelude::*;
use vstd::string::StringExecFns;

use crate::detect::detect_by_signature_buf;
use crate::detect::spec_detect;
use crate::text::chars_eq_fold;
use crate::text::lower;

verus! {

/// The settled outcome for one file: the type label to sort under (nothing
/// means the file is skipped), and the (detected, declared) pair when a
/// mismatch is to be recorded for reporting.
#[derive(Debug)]
pub struct ResolveResult {
    pub ext: Option<String>,
    pub mismatch: Option<(String, String)>,
}

impl ResolveResult {
    /// The resolved label as a character sequence.
    pub open spec fn ext_view(&self) -> Option<Seq<char>> {
        match self.ext {
            Option::Some(s) => Option::Some(s@),
            Option::None => Option::None,
        }
    }

    /// The recorded mismatch pair as character sequences.
    pub open spec fn mismatch_view(&self) -> Option<(Seq<char>, Seq<char>)> {
        match self.mismatch {
            Option::Some(p) => Option::Some((p.0@, p.1@)),
            Option::None => Option::None,
        }
    }
}

/// What resolving one file comes to: either a settled result, or a suspended
/// conflict between the detected type and the declared extension that the
/// caller must put to the user.
pub enum Resolution {
    Done(ResolveResult),
    Conflict { detected: String, declared: String },
}

/// The spec-level picture of a `Resolution`.
pub enum ResolutionModel {
    Done { ext: Option<Seq<char>>, mismatch: Option<(Seq<char>, Seq<char>)> },
    Conflict { detected: Seq<char>, declared: Seq<char> },
}

impl View for Resolution {
    type V = ResolutionModel;

    open spec fn view(&self) -> ResolutionModel {
        match self {
            Resolution::Done(res) => ResolutionModel::Done {
                ext: res.ext_view(),
                mismatch: res.mismatch_view(),
            },
            Resolution::Conflict { detected, declared } => ResolutionModel::Conflict {
                detected: detected@,
                declared: declared@,
            },
        }
    }
}

/// The declared extension as a character sequence.
pub open spec fn opt_str_view(d: Option<&str>) -> Option<Seq<char>> {
    match d {
        Option::Some(s) => Option::Some(s@),
        Option::None => Option::None,
    }
}

/// The label a file falls back to when no signature speaks: its declared
/// extension, or "unknown" when it has none.
pub open spec fn spec_fallback_ext(declared: Option<Seq<char>>) -> Seq<char> {
    match declared {
        Option::Some(a) => a,
        Option::None => "unknown"@,
    }
}

/// The per-file resolution decision. In extension-only mode the declared
/// extension wins with no signature work. Otherwise detection runs over the
/// prefix: no match falls back to the declared extension; a match with no
/// declared extension, or one equal to it up to ASCII case, is accepted as
/// the detected type; a disagreement is recorded as a mismatch in a dry run
/// and suspends as a conflict in a live run.
pub open spec fn spec_resolve(
    prefix: Seq<u8>,
    declared: Option<Seq<char>>,
    ext_only: bool,
    dry_run: bool,
) -> ResolutionModel {
    if ext_only {
        ResolutionModel::Done {
            ext: Option::Some(spec_fallback_ext(declared)),
            mismatch: Option::None,
        }
    } else {
        match spec_detect(prefix) {
            Option::None => ResolutionModel::Done {
                ext: Option::Some(spec_fallback_ext(declared)),
                mismatch: Option::None,
            },
            Option::Some(d) => match declared {
                Option::None => ResolutionModel::Done {
                    ext: Option::Some(d),
                    mismatch: Option::None,
                },
                Option::Some(a) => if lower(a) == d {
                    ResolutionModel::Done { ext: Option::Some(d), mismatch: Option::None }
                } else if dry_run {
                    ResolutionModel::Done {
                        ext: Option::Some(d),
                        mismatch: Option::Some((d, a)),
                    }
                } else {
                    ResolutionModel::Conflict { detected: d, declared: a }
                },
            },
        }
    }
}

fn fallback_ext(declared: Option<&str>) -> (r: String)
    ensures
        r@ == spec_fallback_ext(opt_str_view(declared)),
{
    match declared {
        Option::Some(a) => a.to_owned(),
        Option::None => String::from_str("unknown"),
    }
}

/// Resolve one file from its sampled byte prefix and its declared extension
/// (the lowercase name suffix, or nothing when the name has none).
pub fn resolve_extension(
    prefix: &[u8],
    declared: Option<&str>,
    ext_only: bool,
    dry_run: bool,
) -> (r: Resolution)
    ensures
        r@ == spec_resolve(prefix@, opt_str_view(declared), ext_only, dry_run),
{
    if ext_only {
        return Resolution::Done(
            ResolveResult { ext: Option::Some(fallback_ext(declared)), mismatch: Option::None },
        );
    }
    match detect_by_signature_buf(prefix) {
        Option::None => Resolution::Done(
            ResolveResult { ext: Option::Some(fallback_ext(declared)), mismatch: Option::None },
        ),
        Option::Some(d) => match declared {
            Option::None => Resolution::Done(
                ResolveResult {
                    ext: Option::Some(String::from_str(d)),
                    mismatch: Option::None,
                },
            ),
            Option::Some(a) => {
                if chars_eq_fold(a, d) {
                    Resolution::Done(
                        ResolveResult {
                            ext: Option::Some(String::from_str(d)),
                            mismatch: Option::None,
                        },
                    )
                } else if dry_run {
                    Resolution::Done(
                        ResolveResult {
                            ext: Option::Some(String::from_str(d)),
                            mismatch: Option::Some((String::from_str(d), a.to_owned())),
                        },
                    )
                } else {
                    Resolution::Conflict {
                        detected: String::from_str(d),
                        declared: a.to_owned(),
                    }
                }
            },
        },
    }
}

/// The four dispositions the conflict prompt offers for a detected/declared
/// disagreement: skip the file, sort it under the detected signature type,
/// sort it under the declared extension, or send it to manual verification.
#[derive(Debug, Clone, PartialEq, Eq)]
pub enum ConflictResolution {
    Skip,
    BySignature(String),
    ByExtension(String),
    Mismatched,
}

/// Settle a suspended conflict with the user's choice. Skipping clears the
/// label; either type choice sorts the file under the chosen label with no
/// mismatch recorded; manual verification sorts it under the reserved label
/// "mismatch" and records the (detected, declared) pair.
pub fn apply_conflict_resolution(
    choice: ConflictResolution,
    detected: &str,
    declared: &str,
) -> (r: ResolveResult)
    ensures
        choice is Skip ==> r.ext_view() is None && r.mismatch_view() is None,
        choice matches ConflictResolution::BySignature(s) ==> r.ext_view() == Option::Some(s@)
            && r.mismatch_view() is None,
        choice matches ConflictResolution::ByExtension(s) ==> r.ext_view() == Option::Some(s@)
            && r.mismatch_view() is None,
        choice is Mismatched ==> r.ext_view() == Option::Some("mismatch"@) && r.mismatch_view()
            == Option::Some((detected@, declared@)),
{
    match choice {
        ConflictResolution::Skip => ResolveResult { ext: Option::None, mismatch: Option::None },
        ConflictResolution::BySignature(s) => ResolveResult {
            ext: Option::Some(s),
            mismatch: Option::None,
        },
        ConflictResolution::ByExtension(s) => ResolveResult {
            ext: Option::Some(s),
            mismatch: Option::None,
        },
        ConflictResolution::Mismatched => ResolveResult {
            ext: Option::Some(String::from_str("mismatch")),
            mismatch: Option::Some((detected.to_owned(), declared.to_owned())),
        },
    }
}

/// Law: bytes that no signature and no shape check claims resolve to the
/// declared extension, or to "unknown" when there is none — never to a
/// conflict and never to a skip.
pub proof fn lemma_no_match_falls_back_to_extension(
    prefix: Seq<u8>,
    declared: Option<Seq<char>>,
    dry_run: bool,
)
    requires
        spec_detect(prefix) is None,
    ensures
        spec_resolve(prefix, declared, false, dry_run) == (ResolutionModel::Done {
            ext: Option::Some(spec_fallback_ext(declared)),
            mismatch: Option::None,
        }),
{
}

/// Law: a dry run never suspends on the interactive conflict prompt: for
/// every prefix and declared extension the resolution is settled at once,
/// with the mismatch pair recorded in the result instead.
pub proof fn lemma_dry_run_never_asks(
    prefix: Seq<u8>,
    declared: Option<Seq<char>>,
    ext_only: bool,
)
    ensures
        !(spec_resolve(prefix, declared, ext_only, true) is Conflict),
{
}

} // verus!
