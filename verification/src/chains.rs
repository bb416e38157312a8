use crate::kind::Type;
use crate::transform::transform;
use vstd::prelude::*;

verus! {

/// Whether `chain` can be followed from its first kind to its last: it
/// holds a kind, and a conversion is registered for every step.
pub open spec fn chain_valid(chain: Seq<Type>) -> bool {
    &&& chain.len() > 0
    &&& forall|i: int| 0 <= i < chain.len() - 1 ==> (#[trigger] step(chain, i)) is Some
}

/// The conversion of step `i` of `chain`, from the kind at `i` to the
/// next.
pub open spec fn step(chain: Seq<Type>, i: int) -> Option<crate::transform::Conversion> {
    transform(chain[i], chain[i + 1])
}

/// The catalog of chains: the ways that lead from the anchor `t1` to the
/// anchor `t2`, each a sequence of kinds. The first kind of a chain is what
/// the generated function takes, the last is what it returns. The choice
/// of the kinds in between is made by hand: of the possible ways the
/// catalog lists the one that reads best and allocates least.
pub open spec fn chains(t1: Type, t2: Type) -> Option<Seq<Seq<Type>>> {
    match (t1, t2) {
        // From &str
        (Type::Str, Type::String) => Some(seq![seq![Type::Str, Type::String]]),
        (Type::Str, Type::U8Slice) => Some(seq![seq![Type::Str, Type::U8Slice]]),
        (Type::Str, Type::U8Vec) => Some(seq![seq![Type::Str, Type::U8Slice, Type::U8Vec]]),
        (Type::Str, Type::Path) => Some(seq![seq![Type::Str, Type::Path]]),
        (Type::Str, Type::PathBuf) => Some(seq![seq![Type::Str, Type::PathBuf]]),
        (Type::Str, Type::OsStr) => Some(seq![seq![Type::Str, Type::OsStr]]),
        (Type::Str, Type::OsString) => Some(seq![seq![Type::Str, Type::OsString]]),
        (Type::Str, Type::CStr) => Some(
            seq![
                seq![Type::Str, Type::U8Slice, Type::ResultCStrOrFromBytesWithNulError],
            ],
        ),
        (Type::Str, Type::CString) => Some(
            seq![
                seq![
                    Type::Str,
                    Type::U8Slice,
                    Type::ResultCStrOrFromBytesWithNulError,
                    Type::ResultCStringOrFromBytesWithNulError,
                ],
            ],
        ),
        // From String
        (Type::String, Type::Str) => Some(seq![seq![Type::StringRef, Type::Str]]),
        (Type::String, Type::U8Slice) => Some(seq![seq![Type::StringRef, Type::U8Slice]]),
        (Type::String, Type::U8Vec) => Some(seq![seq![Type::String, Type::U8Vec]]),
        (Type::String, Type::Path) => Some(seq![seq![Type::StringRef, Type::Path]]),
        (Type::String, Type::PathBuf) => Some(seq![seq![Type::StringRef, Type::PathBuf]]),
        (Type::String, Type::OsStr) => Some(seq![seq![Type::StringRef, Type::OsStr]]),
        (Type::String, Type::OsString) => Some(seq![seq![Type::String, Type::OsString]]),
        (Type::String, Type::CStr) => Some(
            seq![
                seq![Type::StringRef, Type::U8Slice, Type::ResultCStrOrFromBytesWithNulError],
            ],
        ),
        (Type::String, Type::CString) => Some(
            seq![
                seq![
                    Type::StringRef,
                    Type::U8Slice,
                    Type::ResultCStrOrFromBytesWithNulError,
                    Type::ResultCStringOrFromBytesWithNulError,
                ],
            ],
        ),
        // From &[u8]
        (Type::U8Slice, Type::Str) => Some(seq![seq![Type::U8Slice, Type::ResultStrOrUtf8Error]]),
        (Type::U8Slice, Type::String) => Some(
            seq![
                seq![Type::U8Slice, Type::ResultStringOrFromUtf8Error],
                seq![Type::U8Slice, Type::CowStr],
            ],
        ),
        (Type::U8Slice, Type::U8Vec) => Some(seq![seq![Type::U8Slice, Type::U8Vec]]),
        (Type::U8Slice, Type::Path) => Some(seq![seq![Type::U8Slice, Type::OsStr, Type::Path]]),
        (Type::U8Slice, Type::PathBuf) => Some(
            seq![
                seq![Type::U8Slice, Type::OsStr, Type::PathBuf],
            ],
        ),
        (Type::U8Slice, Type::OsStr) => Some(seq![seq![Type::U8Slice, Type::OsStr]]),
        (Type::U8Slice, Type::OsString) => Some(
            seq![
                seq![Type::U8Slice, Type::U8Vec, Type::OsString],
            ],
        ),
        (Type::U8Slice, Type::CStr) => Some(
            seq![
                seq![Type::U8Slice, Type::ResultCStrOrFromBytesWithNulError],
            ],
        ),
        (Type::U8Slice, Type::CString) => Some(
            seq![
                seq![
                    Type::U8Slice,
                    Type::ResultCStrOrFromBytesWithNulError,
                    Type::ResultCStringOrFromBytesWithNulError,
                ],
            ],
        ),
        // From Vec<u8>
        (Type::U8Vec, Type::Str) => Some(seq![seq![Type::U8VecRef, Type::ResultStrOrUtf8Error]]),
        (Type::U8Vec, Type::String) => Some(
            seq![
                seq![Type::U8Vec, Type::ResultStringOrFromUtf8Error],
            ],
        ),
        (Type::U8Vec, Type::U8Slice) => Some(seq![seq![Type::U8VecRef, Type::U8Slice]]),
        (Type::U8Vec, Type::Path) => Some(seq![seq![Type::U8VecRef, Type::OsStr, Type::Path]]),
        (Type::U8Vec, Type::PathBuf) => Some(
            seq![
                seq![Type::U8Vec, Type::OsString, Type::PathBuf],
            ],
        ),
        (Type::U8Vec, Type::OsStr) => Some(seq![seq![Type::U8VecRef, Type::OsStr]]),
        (Type::U8Vec, Type::OsString) => Some(seq![seq![Type::U8Vec, Type::OsString]]),
        (Type::U8Vec, Type::CStr) => Some(
            seq![
                seq![Type::U8VecRef, Type::ResultCStrOrFromBytesWithNulError],
            ],
        ),
        (Type::U8Vec, Type::CString) => Some(
            seq![
                seq![
                    Type::U8VecRef,
                    Type::ResultCStrOrFromBytesWithNulError,
                    Type::ResultCStringOrFromBytesWithNulError,
                ],
            ],
        ),
        // From &Path
        (Type::Path, Type::Str) => Some(seq![seq![Type::Path, Type::OptionStr]]),
        (Type::Path, Type::String) => Some(seq![seq![Type::Path, Type::OptionString]]),
        (Type::Path, Type::U8Slice) => Some(seq![seq![Type::Path, Type::OsStr, Type::U8Slice]]),
        (Type::Path, Type::U8Vec) => Some(
            seq![
                seq![Type::Path, Type::OsStr, Type::U8Slice, Type::U8Vec],
            ],
        ),
        (Type::Path, Type::PathBuf) => Some(seq![seq![Type::Path, Type::PathBuf]]),
        (Type::Path, Type::OsStr) => Some(seq![seq![Type::Path, Type::OsStr]]),
        (Type::Path, Type::OsString) => Some(seq![seq![Type::Path, Type::OsStr, Type::OsString]]),
        (Type::Path, Type::CStr) => Some(
            seq![
                seq![
                    Type::Path,
                    Type::OsStr,
                    Type::U8Slice,
                    Type::ResultCStrOrFromBytesWithNulError,
                ],
            ],
        ),
        (Type::Path, Type::CString) => Some(
            seq![
                seq![
                    Type::Path,
                    Type::OsStr,
                    Type::U8Slice,
                    Type::ResultCStrOrFromBytesWithNulError,
                    Type::ResultCStringOrFromBytesWithNulError,
                ],
            ],
        ),
        // From PathBuf
        (Type::PathBuf, Type::Str) => Some(
            seq![
                seq![Type::PathBufRef, Type::Path, Type::OptionStr],
            ],
        ),
        (Type::PathBuf, Type::String) => Some(
            seq![
                seq![Type::PathBuf, Type::Path, Type::OptionString],
            ],
        ),
        (Type::PathBuf, Type::U8Slice) => Some(
            seq![
                seq![Type::PathBufRef, Type::OsStr, Type::U8Slice],
            ],
        ),
        (Type::PathBuf, Type::U8Vec) => Some(
            seq![
                seq![Type::PathBuf, Type::OsString, Type::U8Vec],
            ],
        ),
        (Type::PathBuf, Type::Path) => Some(seq![seq![Type::PathBufRef, Type::Path]]),
        (Type::PathBuf, Type::OsStr) => Some(seq![seq![Type::PathBufRef, Type::OsStr]]),
        (Type::PathBuf, Type::OsString) => Some(seq![seq![Type::PathBuf, Type::OsString]]),
        (Type::PathBuf, Type::CStr) => Some(
            seq![
                seq![
                    Type::PathBufRef,
                    Type::OsStr,
                    Type::U8Slice,
                    Type::ResultCStrOrFromBytesWithNulError,
                ],
            ],
        ),
        (Type::PathBuf, Type::CString) => Some(
            seq![
                seq![
                    Type::PathBufRef,
                    Type::OsStr,
                    Type::U8Slice,
                    Type::ResultCStrOrFromBytesWithNulError,
                    Type::ResultCStringOrFromBytesWithNulError,
                ],
            ],
        ),
        // From &OsStr
        (Type::OsStr, Type::Str) => Some(seq![seq![Type::OsStr, Type::OptionStr]]),
        (Type::OsStr, Type::String) => Some(seq![seq![Type::OsStr, Type::OptionString]]),
        (Type::OsStr, Type::U8Slice) => Some(seq![seq![Type::OsStr, Type::U8Slice]]),
        (Type::OsStr, Type::U8Vec) => Some(seq![seq![Type::OsStr, Type::U8Slice, Type::U8Vec]]),
        (Type::OsStr, Type::Path) => Some(seq![seq![Type::OsStr, Type::Path]]),
        (Type::OsStr, Type::PathBuf) => Some(seq![seq![Type::OsStr, Type::PathBuf]]),
        (Type::OsStr, Type::OsString) => Some(seq![seq![Type::OsStr, Type::OsString]]),
        (Type::OsStr, Type::CStr) => Some(
            seq![
                seq![Type::OsStr, Type::U8Slice, Type::ResultCStrOrFromBytesWithNulError],
            ],
        ),
        (Type::OsStr, Type::CString) => Some(
            seq![
                seq![
                    Type::OsStr,
                    Type::U8Slice,
                    Type::ResultCStrOrFromBytesWithNulError,
                    Type::ResultCStringOrFromBytesWithNulError,
                ],
            ],
        ),
        // From OsString
        (Type::OsString, Type::Str) => Some(seq![seq![Type::OsStringRef, Type::OptionStr]]),
        (Type::OsString, Type::String) => Some(
            seq![
                seq![Type::OsString, Type::ResultStringOrOsString],
            ],
        ),
        (Type::OsString, Type::U8Slice) => Some(seq![seq![Type::OsStringRef, Type::U8Slice]]),
        (Type::OsString, Type::U8Vec) => Some(seq![seq![Type::OsString, Type::U8Vec]]),
        (Type::OsString, Type::Path) => Some(seq![seq![Type::OsStringRef, Type::Path]]),
        (Type::OsString, Type::PathBuf) => Some(seq![seq![Type::OsString, Type::PathBuf]]),
        (Type::OsString, Type::OsStr) => Some(seq![seq![Type::OsStringRef, Type::OsStr]]),
        (Type::OsString, Type::CStr) => Some(
            seq![
                seq![Type::OsStringRef, Type::U8Slice, Type::ResultCStrOrFromBytesWithNulError],
            ],
        ),
        (Type::OsString, Type::CString) => Some(
            seq![
                seq![
                    Type::OsStringRef,
                    Type::U8Slice,
                    Type::ResultCStrOrFromBytesWithNulError,
                    Type::ResultCStringOrFromBytesWithNulError,
                ],
            ],
        ),
        // From &CStr
        (Type::CStr, Type::Str) => Some(seq![seq![Type::CStr, Type::ResultStrOrUtf8Error]]),
        (Type::CStr, Type::String) => Some(
            seq![
                seq![Type::CStr, Type::ResultStrOrUtf8Error, Type::ResultStringOrUtf8Error],
            ],
        ),
        (Type::CStr, Type::U8Slice) => Some(seq![seq![Type::CStr, Type::U8Slice]]),
        (Type::CStr, Type::U8Vec) => Some(seq![seq![Type::CStr, Type::U8Slice, Type::U8Vec]]),
        (Type::CStr, Type::Path) => Some(
            seq![
                seq![Type::CStr, Type::U8Slice, Type::OsStr, Type::Path],
            ],
        ),
        (Type::CStr, Type::PathBuf) => Some(
            seq![
                seq![Type::CStr, Type::U8Slice, Type::OsStr, Type::Path, Type::PathBuf],
            ],
        ),
        (Type::CStr, Type::OsStr) => Some(seq![seq![Type::CStr, Type::U8Slice, Type::OsStr]]),
        (Type::CStr, Type::OsString) => Some(
            seq![
                seq![Type::CStr, Type::U8Slice, Type::OsStr, Type::OsString],
            ],
        ),
        (Type::CStr, Type::CString) => Some(seq![seq![Type::CStr, Type::CString]]),
        // From CString
        (Type::CString, Type::Str) => Some(
            seq![
                seq![Type::CStringRef, Type::CStr, Type::ResultStrOrUtf8Error],
            ],
        ),
        (Type::CString, Type::String) => Some(
            seq![
                seq![Type::CString, Type::ResultStringOrIntoStringError],
            ],
        ),
        (Type::CString, Type::U8Slice) => Some(seq![seq![Type::CStringRef, Type::U8Slice]]),
        (Type::CString, Type::U8Vec) => Some(seq![seq![Type::CString, Type::U8Vec]]),
        (Type::CString, Type::Path) => Some(
            seq![
                seq![Type::CStringRef, Type::U8Slice, Type::OsStr, Type::Path],
            ],
        ),
        (Type::CString, Type::PathBuf) => Some(
            seq![
                seq![Type::CString, Type::U8Vec, Type::OsString, Type::PathBuf],
            ],
        ),
        (Type::CString, Type::OsStr) => Some(
            seq![
                seq![Type::CStringRef, Type::U8Slice, Type::OsStr],
            ],
        ),
        (Type::CString, Type::OsString) => Some(
            seq![
                seq![Type::CString, Type::U8Vec, Type::OsString],
            ],
        ),
        (Type::CString, Type::CStr) => Some(seq![seq![Type::CStringRef, Type::CStr]]),
        _ => None,
    }
}

/// The chains that lead from the anchor `t1` to another anchor `t2`:
/// one, or two where a lossy way exists beside the strict one. The
/// catalog lists chains for every two different anchors and for no other
/// pair; to ask for another pair is a fault of the caller, and
/// `find_chains` answers for every pair.
pub fn conversion_chains(t1: Type, t2: Type) -> (r: Vec<Vec<Type>>)
    requires
        t1.is_anchor(),
        t2.is_anchor(),
        t1 != t2,
    ensures
        chains(t1, t2) is Some,
        r.deep_view() == chains(t1, t2).unwrap(),
        1 <= r.len() <= 2,
{
    proof {
        lemma_chains_between_anchors(t1, t2);
    }
    let r = match (t1, t2) {
        // From &str
        (Type::Str, Type::String) => vec![vec![Type::Str, Type::String]],
        (Type::Str, Type::U8Slice) => vec![vec![Type::Str, Type::U8Slice]],
        (Type::Str, Type::U8Vec) => vec![vec![Type::Str, Type::U8Slice, Type::U8Vec]],
        (Type::Str, Type::Path) => vec![vec![Type::Str, Type::Path]],
        (Type::Str, Type::PathBuf) => vec![vec![Type::Str, Type::PathBuf]],
        (Type::Str, Type::OsStr) => vec![vec![Type::Str, Type::OsStr]],
        (Type::Str, Type::OsString) => vec![vec![Type::Str, Type::OsString]],
        (Type::Str, Type::CStr) => vec![
                vec![Type::Str, Type::U8Slice, Type::ResultCStrOrFromBytesWithNulError],
        ],
        (Type::Str, Type::CString) => vec![
                vec![
                    Type::Str,
                    Type::U8Slice,
                    Type::ResultCStrOrFromBytesWithNulError,
                    Type::ResultCStringOrFromBytesWithNulError,
                ],
        ],
        // From String
        (Type::String, Type::Str) => vec![vec![Type::StringRef, Type::Str]],
        (Type::String, Type::U8Slice) => vec![vec![Type::StringRef, Type::U8Slice]],
        (Type::String, Type::U8Vec) => vec![vec![Type::String, Type::U8Vec]],
        (Type::String, Type::Path) => vec![vec![Type::StringRef, Type::Path]],
        (Type::String, Type::PathBuf) => vec![vec![Type::StringRef, Type::PathBuf]],
        (Type::String, Type::OsStr) => vec![vec![Type::StringRef, Type::OsStr]],
        (Type::String, Type::OsString) => vec![vec![Type::String, Type::OsString]],
        (Type::String, Type::CStr) => vec![
                vec![Type::StringRef, Type::U8Slice, Type::ResultCStrOrFromBytesWithNulError],
        ],
        (Type::String, Type::CString) => vec![
                vec![
                    Type::StringRef,
                    Type::U8Slice,
                    Type::ResultCStrOrFromBytesWithNulError,
                    Type::ResultCStringOrFromBytesWithNulError,
                ],
        ],
        // From &[u8]
        (Type::U8Slice, Type::Str) => vec![vec![Type::U8Slice, Type::ResultStrOrUtf8Error]],
        (Type::U8Slice, Type::String) => vec![
                vec![Type::U8Slice, Type::ResultStringOrFromUtf8Error],
                vec![Type::U8Slice, Type::CowStr],
        ],
        (Type::U8Slice, Type::U8Vec) => vec![vec![Type::U8Slice, Type::U8Vec]],
        (Type::U8Slice, Type::Path) => vec![vec![Type::U8Slice, Type::OsStr, Type::Path]],
        (Type::U8Slice, Type::PathBuf) => vec![
                vec![Type::U8Slice, Type::OsStr, Type::PathBuf],
        ],
        (Type::U8Slice, Type::OsStr) => vec![vec![Type::U8Slice, Type::OsStr]],
        (Type::U8Slice, Type::OsString) => vec![
                vec![Type::U8Slice, Type::U8Vec, Type::OsString],
        ],
        (Type::U8Slice, Type::CStr) => vec![
                vec![Type::U8Slice, Type::ResultCStrOrFromBytesWithNulError],
        ],
        (Type::U8Slice, Type::CString) => vec![
                vec![
                    Type::U8Slice,
                    Type::ResultCStrOrFromBytesWithNulError,
                    Type::ResultCStringOrFromBytesWithNulError,
                ],
        ],
        // From Vec<u8>
        (Type::U8Vec, Type::Str) => vec![vec![Type::U8VecRef, Type::ResultStrOrUtf8Error]],
        (Type::U8Vec, Type::String) => vec![
                vec![Type::U8Vec, Type::ResultStringOrFromUtf8Error],
        ],
        (Type::U8Vec, Type::U8Slice) => vec![vec![Type::U8VecRef, Type::U8Slice]],
        (Type::U8Vec, Type::Path) => vec![vec![Type::U8VecRef, Type::OsStr, Type::Path]],
        (Type::U8Vec, Type::PathBuf) => vec![
                vec![Type::U8Vec, Type::OsString, Type::PathBuf],
        ],
        (Type::U8Vec, Type::OsStr) => vec![vec![Type::U8VecRef, Type::OsStr]],
        (Type::U8Vec, Type::OsString) => vec![vec![Type::U8Vec, Type::OsString]],
        (Type::U8Vec, Type::CStr) => vec![
                vec![Type::U8VecRef, Type::ResultCStrOrFromBytesWithNulError],
        ],
        (Type::U8Vec, Type::CString) => vec![
                vec![
                    Type::U8VecRef,
                    Type::ResultCStrOrFromBytesWithNulError,
                    Type::ResultCStringOrFromBytesWithNulError,
                ],
        ],
        // From &Path
        (Type::Path, Type::Str) => vec![vec![Type::Path, Type::OptionStr]],
        (Type::Path, Type::String) => vec![vec![Type::Path, Type::OptionString]],
        (Type::Path, Type::U8Slice) => vec![vec![Type::Path, Type::OsStr, Type::U8Slice]],
        (Type::Path, Type::U8Vec) => vec![
                vec![Type::Path, Type::OsStr, Type::U8Slice, Type::U8Vec],
        ],
        (Type::Path, Type::PathBuf) => vec![vec![Type::Path, Type::PathBuf]],
        (Type::Path, Type::OsStr) => vec![vec![Type::Path, Type::OsStr]],
        (Type::Path, Type::OsString) => vec![vec![Type::Path, Type::OsStr, Type::OsString]],
        (Type::Path, Type::CStr) => vec![
                vec![
                    Type::Path,
                    Type::OsStr,
                    Type::U8Slice,
                    Type::ResultCStrOrFromBytesWithNulError,
                ],
        ],
        (Type::Path, Type::CString) => vec![
                vec![
                    Type::Path,
                    Type::OsStr,
                    Type::U8Slice,
                    Type::ResultCStrOrFromBytesWithNulError,
                    Type::ResultCStringOrFromBytesWithNulError,
                ],
        ],
        // From PathBuf
        (Type::PathBuf, Type::Str) => vec![
                vec![Type::PathBufRef, Type::Path, Type::OptionStr],
        ],
        (Type::PathBuf, Type::String) => vec![
                vec![Type::PathBuf, Type::Path, Type::OptionString],
        ],
        (Type::PathBuf, Type::U8Slice) => vec![
                vec![Type::PathBufRef, Type::OsStr, Type::U8Slice],
        ],
        (Type::PathBuf, Type::U8Vec) => vec![
                vec![Type::PathBuf, Type::OsString, Type::U8Vec],
        ],
        (Type::PathBuf, Type::Path) => vec![vec![Type::PathBufRef, Type::Path]],
        (Type::PathBuf, Type::OsStr) => vec![vec![Type::PathBufRef, Type::OsStr]],
        (Type::PathBuf, Type::OsString) => vec![vec![Type::PathBuf, Type::OsString]],
        (Type::PathBuf, Type::CStr) => vec![
                vec![
                    Type::PathBufRef,
                    Type::OsStr,
                    Type::U8Slice,
                    Type::ResultCStrOrFromBytesWithNulError,
                ],
        ],
        (Type::PathBuf, Type::CString) => vec![
                vec![
                    Type::PathBufRef,
                    Type::OsStr,
                    Type::U8Slice,
                    Type::ResultCStrOrFromBytesWithNulError,
                    Type::ResultCStringOrFromBytesWithNulError,
                ],
        ],
        // From &OsStr
        (Type::OsStr, Type::Str) => vec![vec![Type::OsStr, Type::OptionStr]],
        (Type::OsStr, Type::String) => vec![vec![Type::OsStr, Type::OptionString]],
        (Type::OsStr, Type::U8Slice) => vec![vec![Type::OsStr, Type::U8Slice]],
        (Type::OsStr, Type::U8Vec) => vec![vec![Type::OsStr, Type::U8Slice, Type::U8Vec]],
        (Type::OsStr, Type::Path) => vec![vec![Type::OsStr, Type::Path]],
        (Type::OsStr, Type::PathBuf) => vec![vec![Type::OsStr, Type::PathBuf]],
        (Type::OsStr, Type::OsString) => vec![vec![Type::OsStr, Type::OsString]],
        (Type::OsStr, Type::CStr) => vec![
                vec![Type::OsStr, Type::U8Slice, Type::ResultCStrOrFromBytesWithNulError],
        ],
        (Type::OsStr, Type::CString) => vec![
                vec![
                    Type::OsStr,
                    Type::U8Slice,
                    Type::ResultCStrOrFromBytesWithNulError,
                    Type::ResultCStringOrFromBytesWithNulError,
                ],
        ],
        // From OsString
        (Type::OsString, Type::Str) => vec![vec![Type::OsStringRef, Type::OptionStr]],
        (Type::OsString, Type::String) => vec![
                vec![Type::OsString, Type::ResultStringOrOsString],
        ],
        (Type::OsString, Type::U8Slice) => vec![vec![Type::OsStringRef, Type::U8Slice]],
        (Type::OsString, Type::U8Vec) => vec![vec![Type::OsString, Type::U8Vec]],
        (Type::OsString, Type::Path) => vec![vec![Type::OsStringRef, Type::Path]],
        (Type::OsString, Type::PathBuf) => vec![vec![Type::OsString, Type::PathBuf]],
        (Type::OsString, Type::OsStr) => vec![vec![Type::OsStringRef, Type::OsStr]],
        (Type::OsString, Type::CStr) => vec![
                vec![Type::OsStringRef, Type::U8Slice, Type::ResultCStrOrFromBytesWithNulError],
        ],
        (Type::OsString, Type::CString) => vec![
                vec![
                    Type::OsStringRef,
                    Type::U8Slice,
                    Type::ResultCStrOrFromBytesWithNulError,
                    Type::ResultCStringOrFromBytesWithNulError,
                ],
        ],
        // From &CStr
        (Type::CStr, Type::Str) => vec![vec![Type::CStr, Type::ResultStrOrUtf8Error]],
        (Type::CStr, Type::String) => vec![
                vec![Type::CStr, Type::ResultStrOrUtf8Error, Type::ResultStringOrUtf8Error],
        ],
        (Type::CStr, Type::U8Slice) => vec![vec![Type::CStr, Type::U8Slice]],
        (Type::CStr, Type::U8Vec) => vec![vec![Type::CStr, Type::U8Slice, Type::U8Vec]],
        (Type::CStr, Type::Path) => vec![
                vec![Type::CStr, Type::U8Slice, Type::OsStr, Type::Path],
        ],
        (Type::CStr, Type::PathBuf) => vec![
                vec![Type::CStr, Type::U8Slice, Type::OsStr, Type::Path, Type::PathBuf],
        ],
        (Type::CStr, Type::OsStr) => vec![vec![Type::CStr, Type::U8Slice, Type::OsStr]],
        (Type::CStr, Type::OsString) => vec![
                vec![Type::CStr, Type::U8Slice, Type::OsStr, Type::OsString],
        ],
        (Type::CStr, Type::CString) => vec![vec![Type::CStr, Type::CString]],
        // From CString
        (Type::CString, Type::Str) => vec![
                vec![Type::CStringRef, Type::CStr, Type::ResultStrOrUtf8Error],
        ],
        (Type::CString, Type::String) => vec![
                vec![Type::CString, Type::ResultStringOrIntoStringError],
        ],
        (Type::CString, Type::U8Slice) => vec![vec![Type::CStringRef, Type::U8Slice]],
        (Type::CString, Type::U8Vec) => vec![vec![Type::CString, Type::U8Vec]],
        (Type::CString, Type::Path) => vec![
                vec![Type::CStringRef, Type::U8Slice, Type::OsStr, Type::Path],
        ],
        (Type::CString, Type::PathBuf) => vec![
                vec![Type::CString, Type::U8Vec, Type::OsString, Type::PathBuf],
        ],
        (Type::CString, Type::OsStr) => vec![
                vec![Type::CStringRef, Type::U8Slice, Type::OsStr],
        ],
        (Type::CString, Type::OsString) => vec![
                vec![Type::CString, Type::U8Vec, Type::OsString],
        ],
        (Type::CString, Type::CStr) => vec![vec![Type::CStringRef, Type::CStr]],
        _ => unreached(),
    };
    assert(r.deep_view() =~~= chains(t1, t2).unwrap());
    r
}

/// The chain of the catalog that is listed first for the pair: the one
/// that loses nothing, where a lossy one is listed too.
pub open spec fn primary_chain(t1: Type, t2: Type) -> Option<Seq<Type>> {
    match chains(t1, t2) {
        Some(list) => Some(list[0]),
        None => None,
    }
}

/// The chain that is listed first for the two different anchors.
pub fn conversion_chain(t1: Type, t2: Type) -> (r: Vec<Type>)
    requires
        t1.is_anchor(),
        t2.is_anchor(),
        t1 != t2,
    ensures
        primary_chain(t1, t2) is Some,
        r.deep_view() == primary_chain(t1, t2).unwrap(),
{
    let mut list = conversion_chains(t1, t2);
    list.swap_remove(0)
}

/// Looks up the chains that lead from `t1` to `t2`, if the catalog lists
/// some: it does for every two different anchors and for no other pair.
pub fn find_chains(t1: Type, t2: Type) -> (r: Option<Vec<Vec<Type>>>)
    ensures
        r.deep_view() == chains(t1, t2),
{
    proof {
        lemma_chains_between_anchors(t1, t2);
    }
    if t1.is_anchor() && t2.is_anchor() && t1 != t2 {
        Some(conversion_chains(t1, t2))
    } else {
        None
    }
}

/// The catalog has an entry for every two different anchors and for no
/// other pair, and an entry lists one chain or two.
pub proof fn lemma_chains_between_anchors(t1: Type, t2: Type)
    ensures
        chains(t1, t2) is Some <==> (t1.is_anchor() && t2.is_anchor() && t1 != t2),
        chains(t1, t2) is Some ==> 1 <= chains(t1, t2).unwrap().len() <= 2,
{
}

/// No chain of the catalog has a dangling step: a conversion is
/// registered for every two neighbouring kinds of it.
pub proof fn lemma_catalog_chains_valid(t1: Type, t2: Type, k: int)
    requires
        chains(t1, t2) is Some,
        0 <= k < chains(t1, t2).unwrap().len(),
    ensures
        chain_valid(chains(t1, t2).unwrap()[k]),
{
    let chain = chains(t1, t2).unwrap()[k];
    assert forall|i: int| 0 <= i < chain.len() - 1 implies (#[trigger] step(chain, i)) is Some by {}
}

/// Where the catalog lists two chains for a pair, the first is strict and
/// the second lossy: the second ends in `Cow<str>` and the first does
/// not, so that the two functions get different names.
pub proof fn lemma_second_chain_is_lossy(t1: Type, t2: Type)
    requires
        chains(t1, t2) is Some,
        chains(t1, t2).unwrap().len() == 2,
    ensures
        chains(t1, t2).unwrap()[0].last() != Type::CowStr,
        chains(t1, t2).unwrap()[1].last() == Type::CowStr,
        chains(t1, t2).unwrap()[0].first() == chains(t1, t2).unwrap()[1].first(),
{
}

} // verus!
