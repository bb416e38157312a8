use crate::kind::Type;
use crate::text::{replace, spec_replace};
use vstd::prelude::*;

verus! {

/// A one-step conversion from one kind to another.
///
/// `format` is the expression that converts, with `{}` where the
/// expression to convert goes. The two flags say which extension traits
/// the expression needs; both traits exist on Unix only.
#[derive(Clone, Copy, Debug)]
pub struct Conversion {
    pub format: &'static str,
    pub os_str_bytes: bool,
    pub os_string_bytes: bool,
}

impl Default for Conversion {
    fn default() -> (r: Conversion)
        ensures
            r.format@ == Seq::<char>::empty(),
            !r.os_str_bytes,
            !r.os_string_bytes,
    {
        let r = Conversion { format: "", os_str_bytes: false, os_string_bytes: false };
        proof {
            reveal_strlit("");
        }
        r
    }
}

impl Conversion {
    /// The conversion with the given template and no flag set.
    pub open spec fn spec_new(format: &'static str) -> Conversion {
        Conversion { format, os_str_bytes: false, os_string_bytes: false }
    }

    pub open spec fn spec_use_os_str_bytes(self) -> Conversion {
        Conversion { os_str_bytes: true, ..self }
    }

    pub open spec fn spec_use_os_string_bytes(self) -> Conversion {
        Conversion { os_string_bytes: true, ..self }
    }

    /// The template with `expr` in the place of `{}`.
    pub open spec fn spec_format_expr(self, expr: Seq<char>) -> Seq<char> {
        spec_replace(self.format@, "{}"@, expr)
    }

    /// Whether the conversion exists on Unix only.
    pub open spec fn spec_unix_only(self) -> bool {
        self.os_str_bytes || self.os_string_bytes
    }

    /// The paths that the converting expression has to import, beyond
    /// those of the two kinds.
    pub open spec fn spec_uses(self) -> Seq<Seq<char>> {
        let first = if self.os_str_bytes {
            seq!["std::os::unix::ffi::OsStrExt"@]
        } else {
            Seq::empty()
        };
        let second = if self.os_string_bytes {
            seq!["std::os::unix::ffi::OsStringExt"@]
        } else {
            Seq::empty()
        };
        first + second
    }

    pub fn format_expr(&self, expr: String) -> (r: String)
        ensures
            r@ == self.spec_format_expr(expr@),
    {
        replace(self.format, "{}", expr.as_str())
    }

    pub fn unix_only(&self) -> (r: bool)
        ensures
            r == self.spec_unix_only(),
    {
        self.os_str_bytes || self.os_string_bytes
    }

    pub fn uses(&self) -> (r: Vec<&'static str>)
        ensures
            r.deep_view() == self.spec_uses(),
    {
        let mut uses: Vec<&'static str> = Vec::new();
        if self.os_str_bytes {
            uses.push("std::os::unix::ffi::OsStrExt");
        }
        if self.os_string_bytes {
            uses.push("std::os::unix::ffi::OsStringExt");
        }
        uses
    }

    pub fn use_os_str_bytes(self) -> (r: Conversion)
        ensures
            r == self.spec_use_os_str_bytes(),
    {
        let mut r = self;
        r.os_str_bytes = true;
        r
    }

    pub fn use_os_string_bytes(self) -> (r: Conversion)
        ensures
            r == self.spec_use_os_string_bytes(),
    {
        let mut r = self;
        r.os_string_bytes = true;
        r
    }
}

/// The conversion with the given template and no flag set.
pub fn mkconv(format: &'static str) -> (r: Conversion)
    ensures
        r == Conversion::spec_new(format),
{
    Conversion { format, os_str_bytes: false, os_string_bytes: false }
}

/// The table of one-step conversions: the conversion registered from `t1`
/// to `t2`, if there is one. Being a function of the pair, the table holds
/// at most one conversion for it.
pub open spec fn transform(t1: Type, t2: Type) -> Option<Conversion> {
    match (t1, t2) {
        // From &str
        (Type::Str, Type::String) => Some(Conversion::spec_new("{}.to_string()")),
        (Type::Str, Type::U8Slice) => Some(Conversion::spec_new("{}.as_bytes()")),
        (Type::Str, Type::Path) => Some(Conversion::spec_new("Path::new({})")),
        (Type::Str, Type::PathBuf) => Some(Conversion::spec_new("PathBuf::from({})")),
        (Type::Str, Type::OsStr) => Some(Conversion::spec_new("OsStr::new({})")),
        (Type::Str, Type::OsString) => Some(Conversion::spec_new("OsString::from({})")),
        // From String
        (Type::StringRef, Type::Str) => Some(Conversion::spec_new("{}.as_str()")),
        (Type::StringRef, Type::U8Slice) => Some(Conversion::spec_new("{}.as_bytes()")),
        (Type::String, Type::U8Vec) => Some(Conversion::spec_new("{}.into_bytes()")),
        (Type::StringRef, Type::Path) => Some(Conversion::spec_new("Path::new({})")),
        (Type::StringRef, Type::PathBuf) => Some(Conversion::spec_new("PathBuf::from({})")),
        (Type::StringRef, Type::OsStr) => Some(Conversion::spec_new("OsStr::new({})")),
        (Type::String, Type::OsString) => Some(Conversion::spec_new("OsString::from({})")),
        // From &[u8]
        (Type::U8Slice, Type::ResultStrOrUtf8Error) => {
            Some(Conversion::spec_new("std::str::from_utf8({})"))
        },
        (Type::U8Slice, Type::ResultStringOrFromUtf8Error) => {
            Some(Conversion::spec_new("String::from_utf8({}.to_vec())"))
        },
        (Type::U8Slice, Type::CowStr) => Some(Conversion::spec_new("String::from_utf8_lossy({})")),
        (Type::U8Slice, Type::U8Vec) => Some(Conversion::spec_new("{}.to_vec()")),
        (Type::U8Slice, Type::OsStr) => {
            Some(Conversion::spec_new("OsStr::from_bytes({})").spec_use_os_str_bytes())
        },
        (Type::U8Slice, Type::ResultCStrOrFromBytesWithNulError) => {
            Some(Conversion::spec_new("CStr::from_bytes_with_nul({})"))
        },
        // From Vec<u8>
        (Type::U8VecRef, Type::ResultStrOrUtf8Error) => {
            Some(Conversion::spec_new("std::str::from_utf8({})"))
        },
        (Type::U8Vec, Type::ResultStringOrFromUtf8Error) => {
            Some(Conversion::spec_new("String::from_utf8({})"))
        },
        (Type::U8VecRef, Type::U8Slice) => Some(Conversion::spec_new("{}.as_slice()")),
        (Type::U8VecRef, Type::OsStr) => {
            Some(Conversion::spec_new("OsStr::from_bytes({})").spec_use_os_str_bytes())
        },
        (Type::U8Vec, Type::OsString) => {
            Some(Conversion::spec_new("OsString::from_vec({})").spec_use_os_string_bytes())
        },
        (Type::U8VecRef, Type::ResultCStrOrFromBytesWithNulError) => {
            Some(Conversion::spec_new("CStr::from_bytes_with_nul({})"))
        },
        // From &OsStr
        (Type::OsStr, Type::OptionStr) => Some(Conversion::spec_new("{}.to_str()")),
        (Type::OsStr, Type::OptionString) => {
            Some(Conversion::spec_new("{}.to_str().map(|s| s.to_string())"))
        },
        (Type::OsStr, Type::U8Slice) => {
            Some(Conversion::spec_new("{}.as_bytes()").spec_use_os_str_bytes())
        },
        (Type::OsStr, Type::Path) => Some(Conversion::spec_new("Path::new({})")),
        (Type::OsStr, Type::PathBuf) => Some(Conversion::spec_new("PathBuf::from({})")),
        (Type::OsStr, Type::OsString) => Some(Conversion::spec_new("{}.to_os_string()")),
        // From OsString
        (Type::OsStringRef, Type::OptionStr) => Some(Conversion::spec_new("{}.to_str()")),
        (Type::OsString, Type::ResultStringOrOsString) => {
            Some(Conversion::spec_new("{}.into_string()"))
        },
        (Type::OsStringRef, Type::U8Slice) => {
            Some(Conversion::spec_new("{}.as_bytes()").spec_use_os_str_bytes())
        },
        (Type::OsString, Type::U8Vec) => {
            Some(Conversion::spec_new("{}.into_vec()").spec_use_os_string_bytes())
        },
        (Type::OsStringRef, Type::Path) => Some(Conversion::spec_new("Path::new({})")),
        (Type::OsString, Type::PathBuf) => Some(Conversion::spec_new("PathBuf::from({})")),
        (Type::OsStringRef, Type::OsStr) => Some(Conversion::spec_new("{}.as_os_str()")),
        // From &Path
        (Type::Path, Type::OptionStr) => Some(Conversion::spec_new("{}.to_str()")),
        (Type::Path, Type::OptionString) => {
            Some(Conversion::spec_new("{}.to_str().map(|s| s.to_string())"))
        },
        (Type::Path, Type::PathBuf) => Some(Conversion::spec_new("{}.to_path_buf()")),
        (Type::Path, Type::OsStr) => Some(Conversion::spec_new("{}.as_os_str()")),
        // From PathBuf
        (Type::PathBuf, Type::Path) => Some(Conversion::spec_new("{}.as_path()")),
        (Type::PathBufRef, Type::Path) => Some(Conversion::spec_new("{}.as_path()")),
        (Type::PathBufRef, Type::OsStr) => Some(Conversion::spec_new("{}.as_os_str()")),
        (Type::PathBuf, Type::OsString) => Some(Conversion::spec_new("{}.into_os_string()")),
        // From &CStr
        (Type::CStr, Type::ResultStrOrUtf8Error) => Some(Conversion::spec_new("{}.to_str()")),
        (Type::CStr, Type::U8Slice) => Some(Conversion::spec_new("{}.to_bytes()")),
        (Type::CStr, Type::CString) => Some(Conversion::spec_new("CString::from({})")),
        // From CString
        (Type::CStringRef, Type::CStr) => Some(Conversion::spec_new("{}.as_c_str()")),
        (Type::CString, Type::ResultStringOrIntoStringError) => {
            Some(Conversion::spec_new("{}.into_string()"))
        },
        (Type::CStringRef, Type::U8Slice) => Some(Conversion::spec_new("{}.as_bytes()")),
        (Type::CString, Type::U8Vec) => Some(Conversion::spec_new("{}.into_bytes()")),
        // From a result
        (Type::ResultStrOrUtf8Error, Type::ResultStringOrUtf8Error) => {
            Some(Conversion::spec_new("{}.map(|s| s.to_string())"))
        },
        (Type::ResultCStrOrFromBytesWithNulError, Type::ResultCStringOrFromBytesWithNulError) => {
            Some(Conversion::spec_new("{}.map(CString::from)"))
        },
        _ => None,
    }
}

/// Looks up the one-step conversion from `t1` to `t2`, if one is
/// registered.
pub fn find_conversion(t1: Type, t2: Type) -> (r: Option<Conversion>)
    ensures
        r == transform(t1, t2),
{
    match (t1, t2) {
        // From &str
        (Type::Str, Type::String) => Some(mkconv("{}.to_string()")),
        (Type::Str, Type::U8Slice) => Some(mkconv("{}.as_bytes()")),
        (Type::Str, Type::Path) => Some(mkconv("Path::new({})")),
        (Type::Str, Type::PathBuf) => Some(mkconv("PathBuf::from({})")),
        (Type::Str, Type::OsStr) => Some(mkconv("OsStr::new({})")),
        (Type::Str, Type::OsString) => Some(mkconv("OsString::from({})")),
        // From String
        (Type::StringRef, Type::Str) => Some(mkconv("{}.as_str()")),
        (Type::StringRef, Type::U8Slice) => Some(mkconv("{}.as_bytes()")),
        (Type::String, Type::U8Vec) => Some(mkconv("{}.into_bytes()")),
        (Type::StringRef, Type::Path) => Some(mkconv("Path::new({})")),
        (Type::StringRef, Type::PathBuf) => Some(mkconv("PathBuf::from({})")),
        (Type::StringRef, Type::OsStr) => Some(mkconv("OsStr::new({})")),
        (Type::String, Type::OsString) => Some(mkconv("OsString::from({})")),
        // From &[u8]
        (Type::U8Slice, Type::ResultStrOrUtf8Error) => Some(mkconv("std::str::from_utf8({})")),
        (Type::U8Slice, Type::ResultStringOrFromUtf8Error) => {
            Some(mkconv("String::from_utf8({}.to_vec())"))
        },
        (Type::U8Slice, Type::CowStr) => Some(mkconv("String::from_utf8_lossy({})")),
        (Type::U8Slice, Type::U8Vec) => Some(mkconv("{}.to_vec()")),
        (Type::U8Slice, Type::OsStr) => Some(mkconv("OsStr::from_bytes({})").use_os_str_bytes()),
        (Type::U8Slice, Type::ResultCStrOrFromBytesWithNulError) => {
            Some(mkconv("CStr::from_bytes_with_nul({})"))
        },
        // From Vec<u8>
        (Type::U8VecRef, Type::ResultStrOrUtf8Error) => Some(mkconv("std::str::from_utf8({})")),
        (Type::U8Vec, Type::ResultStringOrFromUtf8Error) => Some(mkconv("String::from_utf8({})")),
        (Type::U8VecRef, Type::U8Slice) => Some(mkconv("{}.as_slice()")),
        (Type::U8VecRef, Type::OsStr) => Some(mkconv("OsStr::from_bytes({})").use_os_str_bytes()),
        (Type::U8Vec, Type::OsString) => {
            Some(mkconv("OsString::from_vec({})").use_os_string_bytes())
        },
        (Type::U8VecRef, Type::ResultCStrOrFromBytesWithNulError) => {
            Some(mkconv("CStr::from_bytes_with_nul({})"))
        },
        // From &OsStr
        (Type::OsStr, Type::OptionStr) => Some(mkconv("{}.to_str()")),
        (Type::OsStr, Type::OptionString) => Some(mkconv("{}.to_str().map(|s| s.to_string())")),
        (Type::OsStr, Type::U8Slice) => Some(mkconv("{}.as_bytes()").use_os_str_bytes()),
        (Type::OsStr, Type::Path) => Some(mkconv("Path::new({})")),
        (Type::OsStr, Type::PathBuf) => Some(mkconv("PathBuf::from({})")),
        (Type::OsStr, Type::OsString) => Some(mkconv("{}.to_os_string()")),
        // From OsString
        (Type::OsStringRef, Type::OptionStr) => Some(mkconv("{}.to_str()")),
        (Type::OsString, Type::ResultStringOrOsString) => Some(mkconv("{}.into_string()")),
        (Type::OsStringRef, Type::U8Slice) => Some(mkconv("{}.as_bytes()").use_os_str_bytes()),
        (Type::OsString, Type::U8Vec) => Some(mkconv("{}.into_vec()").use_os_string_bytes()),
        (Type::OsStringRef, Type::Path) => Some(mkconv("Path::new({})")),
        (Type::OsString, Type::PathBuf) => Some(mkconv("PathBuf::from({})")),
        (Type::OsStringRef, Type::OsStr) => Some(mkconv("{}.as_os_str()")),
        // From &Path
        (Type::Path, Type::OptionStr) => Some(mkconv("{}.to_str()")),
        (Type::Path, Type::OptionString) => Some(mkconv("{}.to_str().map(|s| s.to_string())")),
        (Type::Path, Type::PathBuf) => Some(mkconv("{}.to_path_buf()")),
        (Type::Path, Type::OsStr) => Some(mkconv("{}.as_os_str()")),
        // From PathBuf
        (Type::PathBuf, Type::Path) => Some(mkconv("{}.as_path()")),
        (Type::PathBufRef, Type::Path) => Some(mkconv("{}.as_path()")),
        (Type::PathBufRef, Type::OsStr) => Some(mkconv("{}.as_os_str()")),
        (Type::PathBuf, Type::OsString) => Some(mkconv("{}.into_os_string()")),
        // From &CStr
        (Type::CStr, Type::ResultStrOrUtf8Error) => Some(mkconv("{}.to_str()")),
        (Type::CStr, Type::U8Slice) => Some(mkconv("{}.to_bytes()")),
        (Type::CStr, Type::CString) => Some(mkconv("CString::from({})")),
        // From CString
        (Type::CStringRef, Type::CStr) => Some(mkconv("{}.as_c_str()")),
        (Type::CString, Type::ResultStringOrIntoStringError) => Some(mkconv("{}.into_string()")),
        (Type::CStringRef, Type::U8Slice) => Some(mkconv("{}.as_bytes()")),
        (Type::CString, Type::U8Vec) => Some(mkconv("{}.into_bytes()")),
        // From a result
        (Type::ResultStrOrUtf8Error, Type::ResultStringOrUtf8Error) => {
            Some(mkconv("{}.map(|s| s.to_string())"))
        },
        (Type::ResultCStrOrFromBytesWithNulError, Type::ResultCStringOrFromBytesWithNulError) => {
            Some(mkconv("{}.map(CString::from)"))
        },
        _ => None,
    }
}

/// The one-step conversion from `t1` to `t2`. There has to be one: a
/// pair without a registered conversion is a fault of the catalog, and
/// `find_conversion` tells whether a pair has one.
pub fn direct_conversion(t1: Type, t2: Type) -> (r: Conversion)
    requires
        transform(t1, t2) is Some,
    ensures
        r == transform(t1, t2).unwrap(),
{
    match find_conversion(t1, t2) {
        Some(conv) => conv,
        None => unreached(),
    }
}

} // verus!
