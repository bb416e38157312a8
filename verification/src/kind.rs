use crate::text::{replace, spec_replace};
use vstd::prelude::*;

verus! {

/// One form in which string, byte or path data can be held.
///
/// The first ten variants are the anchors: each is the source and the
/// destination of generated conversions. The others only occur inside a
/// chain or as the type that a generated function returns.
#[derive(Clone, Copy, Debug, PartialEq, Eq, Structural)]
pub enum Type {
    Str,
    String,
    U8Slice,
    U8Vec,
    Path,
    PathBuf,
    OsStr,
    OsString,
    CStr,
    CString,
    /// A borrowed view of an owned kind. These seldom appear in a
    /// signature of ordinary code, but a method such as `String::as_str`
    /// takes one, and a generated function has to spell it out.
    StringRef,
    U8VecRef,
    OsStringRef,
    PathBufRef,
    CStringRef,
    CowStr,
    OptionStr,
    OptionString,
    ResultStrOrUtf8Error,
    ResultStringOrUtf8Error,
    ResultStringOrFromUtf8Error,
    ResultStringOrOsString,
    ResultCStrOrFromBytesWithNulError,
    ResultCStringOrFromBytesWithNulError,
    ResultStringOrIntoStringError,
}

impl View for Type {
    type V = Type;

    open spec fn view(&self) -> Type {
        *self
    }
}

impl DeepView for Type {
    type V = Type;

    open spec fn deep_view(&self) -> Type {
        *self
    }
}

impl Type {
    /// The anchors, in the order in which a pass visits them.
    pub open spec fn spec_anchors() -> Seq<Type> {
        seq![
            Type::Str,
            Type::String,
            Type::U8Slice,
            Type::U8Vec,
            Type::Path,
            Type::PathBuf,
            Type::OsStr,
            Type::OsString,
            Type::CStr,
            Type::CString,
        ]
    }

    /// Whether this kind is an anchor.
    pub open spec fn spec_is_anchor(self) -> bool {
        match self {
            Type::Str
            | Type::String
            | Type::U8Slice
            | Type::U8Vec
            | Type::Path
            | Type::PathBuf
            | Type::OsStr
            | Type::OsString
            | Type::CStr
            | Type::CString => true,
            _ => false,
        }
    }

    /// The type as it is written in a signature.
    pub open spec fn spec_type_str(self) -> Seq<char> {
        match self {
            Type::Str => "&str"@,
            Type::String => "String"@,
            Type::U8Slice => "&[u8]"@,
            Type::U8Vec => "Vec<u8>"@,
            Type::Path => "&Path"@,
            Type::PathBuf => "PathBuf"@,
            Type::OsStr => "&OsStr"@,
            Type::OsString => "OsString"@,
            Type::CStr => "&CStr"@,
            Type::CString => "CString"@,
            Type::StringRef => "&String"@,
            Type::U8VecRef => "&Vec<u8>"@,
            Type::PathBufRef => "&PathBuf"@,
            Type::OsStringRef => "&OsString"@,
            Type::CStringRef => "&CString"@,
            Type::CowStr => "Cow<str>"@,
            Type::OptionStr => "Option<&str>"@,
            Type::OptionString => "Option<String>"@,
            Type::ResultStrOrUtf8Error => "Result<&str, Utf8Error>"@,
            Type::ResultStringOrUtf8Error => "Result<String, Utf8Error>"@,
            Type::ResultStringOrFromUtf8Error => "Result<String, FromUtf8Error>"@,
            Type::ResultStringOrOsString => "Result<String, OsString>"@,
            Type::ResultCStrOrFromBytesWithNulError => "Result<&CStr, FromBytesWithNulError>"@,
            Type::ResultCStringOrFromBytesWithNulError => "Result<CString, FromBytesWithNulError>"@,
            Type::ResultStringOrIntoStringError => "Result<String, IntoStringError>"@,
        }
    }

    /// The identifier by which an anchor appears in the names of generated
    /// functions and modules. Only anchors have one.
    pub open spec fn spec_short_name(self) -> Seq<char> {
        match self {
            Type::Str => "str"@,
            Type::String => "string"@,
            Type::U8Slice => "u8_slice"@,
            Type::U8Vec => "u8_vec"@,
            Type::Path => "path"@,
            Type::PathBuf => "path_buf"@,
            Type::OsStr => "os_str"@,
            Type::OsString => "os_string"@,
            Type::CStr => "c_str"@,
            Type::CString => "c_string"@,
            _ => Seq::empty(),
        }
    }

    /// The paths that a signature naming this kind has to import.
    pub open spec fn spec_uses(self) -> Seq<Seq<char>> {
        match self {
            Type::Path => seq!["std::path::Path"@],
            Type::PathBuf => seq!["std::path::PathBuf"@],
            Type::OsStr => seq!["std::ffi::OsStr"@],
            Type::OsString => seq!["std::ffi::OsString"@],
            Type::CStr => seq!["std::ffi::CStr"@],
            Type::CString => seq!["std::ffi::CString"@],
            Type::CowStr => seq!["std::borrow::Cow"@],
            Type::ResultStrOrUtf8Error => seq!["std::str::Utf8Error"@],
            Type::ResultStringOrFromUtf8Error => seq!["std::string::FromUtf8Error"@],
            Type::ResultCStrOrFromBytesWithNulError => seq![
                "std::ffi::CStr"@,
                "std::ffi::FromBytesWithNulError"@,
            ],
            Type::ResultCStringOrFromBytesWithNulError => seq![
                "std::ffi::CString"@,
                "std::ffi::FromBytesWithNulError"@,
            ],
            Type::ResultStringOrIntoStringError => seq!["std::ffi::IntoStringError"@],
            _ => Seq::empty(),
        }
    }

    /// The note that explains this kind where a function returns it, as
    /// it is written before rewrapping.
    pub open spec fn spec_return_comment(self) -> Option<Seq<char>> {
        match self {
            Type::CowStr => Some(
                "This never fails, but invalid UTF-8 sequences will be
replaced with \"\u{fffd}\". This returns a `Cow<str>`; call `to_string()` to convert
it to a `String`."@,
            ),
            Type::OptionStr | Type::OptionString => Some(
                "Returns None if the input is not valid UTF-8."@,
            ),
            Type::ResultCStrOrFromBytesWithNulError => Some(
                "A FromBytesWithNulError will be returned if the
input is not nul-terminated or contains any interior nul bytes.

If your input is not nul-terminated then a conversion without allocation
is not possible, convert to a CString instead."@,
            ),
            _ => None,
        }
    }

    /// The type as it is written in a signature, for an HTML page.
    pub open spec fn spec_html_type_str(self) -> Seq<char> {
        spec_replace(spec_replace(self.spec_type_str(), "<"@, "&lt;"@), ">"@, "&gt;"@)
    }

    pub fn anchors() -> (r: Vec<Type>)
        ensures
            r@ == Type::spec_anchors(),
            forall|t: Type| t.is_anchor() <==> #[trigger] r@.contains(t),
    {
        let r = vec![
            Type::Str,
            Type::String,
            Type::U8Slice,
            Type::U8Vec,
            Type::Path,
            Type::PathBuf,
            Type::OsStr,
            Type::OsString,
            Type::CStr,
            Type::CString,
        ];
        proof {
            Type::anchors_are_the_anchors();
        }
        r
    }

    /// A kind is an anchor exactly if the list of anchors holds it, and
    /// the list holds none twice.
    pub proof fn anchors_are_the_anchors()
        ensures
            forall|t: Type| t.is_anchor() <==> #[trigger] Type::spec_anchors().contains(t),
            Type::spec_anchors().no_duplicates(),
            Type::spec_anchors().len() == 10,
    {
    }

    /// Whether this kind is an anchor.
    #[verifier::when_used_as_spec(spec_is_anchor)]
    pub fn is_anchor(self) -> (r: bool)
        ensures
            r == self.spec_is_anchor(),
    {
        match self {
            Type::Str
            | Type::String
            | Type::U8Slice
            | Type::U8Vec
            | Type::Path
            | Type::PathBuf
            | Type::OsStr
            | Type::OsString
            | Type::CStr
            | Type::CString => true,
            _ => false,
        }
    }

    pub fn type_str(&self) -> (r: &'static str)
        ensures
            r@ == self.spec_type_str(),
    {
        match self {
            Type::Str => "&str",
            Type::String => "String",
            Type::U8Slice => "&[u8]",
            Type::U8Vec => "Vec<u8>",
            Type::Path => "&Path",
            Type::PathBuf => "PathBuf",
            Type::OsStr => "&OsStr",
            Type::OsString => "OsString",
            Type::CStr => "&CStr",
            Type::CString => "CString",
            Type::StringRef => "&String",
            Type::U8VecRef => "&Vec<u8>",
            Type::PathBufRef => "&PathBuf",
            Type::OsStringRef => "&OsString",
            Type::CStringRef => "&CString",
            Type::CowStr => "Cow<str>",
            Type::OptionStr => "Option<&str>",
            Type::OptionString => "Option<String>",
            Type::ResultStrOrUtf8Error => "Result<&str, Utf8Error>",
            Type::ResultStringOrUtf8Error => "Result<String, Utf8Error>",
            Type::ResultStringOrFromUtf8Error => "Result<String, FromUtf8Error>",
            Type::ResultStringOrOsString => "Result<String, OsString>",
            Type::ResultCStrOrFromBytesWithNulError => "Result<&CStr, FromBytesWithNulError>",
            Type::ResultCStringOrFromBytesWithNulError => "Result<CString, FromBytesWithNulError>",
            Type::ResultStringOrIntoStringError => "Result<String, IntoStringError>",
        }
    }

    pub fn html_type_str(&self) -> (r: String)
        ensures
            r@ == self.spec_html_type_str(),
    {
        replace(replace(self.type_str(), "<", "&lt;").as_str(), ">", "&gt;")
    }

    pub fn short_name(&self) -> (r: &'static str)
        requires
            self.is_anchor(),
        ensures
            r@ == self.spec_short_name(),
    {
        match self {
            Type::Str => "str",
            Type::String => "string",
            Type::U8Slice => "u8_slice",
            Type::U8Vec => "u8_vec",
            Type::Path => "path",
            Type::PathBuf => "path_buf",
            Type::OsStr => "os_str",
            Type::OsString => "os_string",
            Type::CStr => "c_str",
            _ => "c_string",
        }
    }

    pub fn uses(&self) -> (r: Vec<&'static str>)
        ensures
            r.deep_view() == self.spec_uses(),
    {
        let r = match self {
            Type::Path => vec!["std::path::Path"],
            Type::PathBuf => vec!["std::path::PathBuf"],
            Type::OsStr => vec!["std::ffi::OsStr"],
            Type::OsString => vec!["std::ffi::OsString"],
            Type::CStr => vec!["std::ffi::CStr"],
            Type::CString => vec!["std::ffi::CString"],
            Type::CowStr => vec!["std::borrow::Cow"],
            Type::ResultStrOrUtf8Error => vec!["std::str::Utf8Error"],
            Type::ResultStringOrFromUtf8Error => vec!["std::string::FromUtf8Error"],
            Type::ResultCStrOrFromBytesWithNulError => vec![
                "std::ffi::CStr",
                "std::ffi::FromBytesWithNulError",
            ],
            Type::ResultCStringOrFromBytesWithNulError => vec![
                "std::ffi::CString",
                "std::ffi::FromBytesWithNulError",
            ],
            Type::ResultStringOrIntoStringError => vec!["std::ffi::IntoStringError"],
            _ => Vec::new(),
        };
        r
    }

    pub fn return_comment(&self) -> (r: Option<&'static str>)
        ensures
            r is Some <==> self.spec_return_comment() is Some,
            r is Some ==> r.unwrap()@ == self.spec_return_comment().unwrap(),
    {
        match self {
            Type::CowStr => Some(
                "This never fails, but invalid UTF-8 sequences will be
replaced with \"\u{fffd}\". This returns a `Cow<str>`; call `to_string()` to convert
it to a `String`.",
            ),
            Type::OptionStr | Type::OptionString => Some(
                "Returns None if the input is not valid UTF-8.",
            ),
            Type::ResultCStrOrFromBytesWithNulError => Some(
                "A FromBytesWithNulError will be returned if the
input is not nul-terminated or contains any interior nul bytes.

If your input is not nul-terminated then a conversion without allocation
is not possible, convert to a CString instead.",
            ),
            _ => None,
        }
    }
}

} // verus!
