//! File open/save dialog descriptions.
//!
//! These are the value types a caller uses to say what to ask the OS
//! for: the kind of dialog, its options, the filetype filters offered
//! to the user, and the information returned about a chosen file.

use vstd::prelude::*;
use vstd::string::StrSliceExecFns;
use vstd::string::StringExecFns;

verus! {

/// The ASCII-lowercase fold used when extensions are compared.
pub open spec fn lower_char(c: char) -> char {
    if 'A' <= c && c <= 'Z' {
        (((c as u8) + 32) as char)
    } else {
        c
    }
}

/// A character sequence folded to ASCII lower case.
pub open spec fn lower_seq(s: Seq<char>) -> Seq<char> {
    s.map(|i: int, c: char| lower_char(c))
}

/// Extensions name the same filetype when they agree up to ASCII
/// case.
pub open spec fn same_extension(a: Seq<char>, b: Seq<char>) -> bool {
    lower_seq(a) == lower_seq(b)
}

/// Whether `a` and `b` are the same extension, compared
/// case-insensitively.
pub fn eq_ignore_case(a: &str, b: &str) -> (r: bool)
    ensures
        r == same_extension(a@, b@),
{
    let alen = a.unicode_len();
    let blen = b.unicode_len();
    if alen != blen {
        proof {
            assert(lower_seq(a@).len() == a@.len());
            assert(lower_seq(b@).len() == b@.len());
        }
        return false;
    }
    let mut k: usize = 0;
    while k < alen
        invariant
            alen == a@.len(),
            blen == b@.len(),
            alen == blen,
            k <= alen,
            forall|j: int| 0 <= j < k ==> lower_char(a@[j]) == lower_char(b@[j]),
        decreases alen - k,
    {
        let ca = a.get_char(k);
        let cb = b.get_char(k);
        let la = if ca >= 'A' && ca <= 'Z' {
            ((ca as u8) + 32) as char
        } else {
            ca
        };
        let lb = if cb >= 'A' && cb <= 'Z' {
            ((cb as u8) + 32) as char
        } else {
            cb
        };
        if la != lb {
            proof {
                assert(lower_seq(a@)[k as int] != lower_seq(b@)[k as int]);
            }
            return false;
        }
        k = k + 1;
    }
    proof {
        assert(lower_seq(a@) =~= lower_seq(b@));
    }
    true
}

/// Information about a file to be opened or saved.
#[derive(Debug, Clone)]
pub struct FileInfo {
    path: String,
}

impl View for FileInfo {
    type V = Seq<char>;

    closed spec fn view(&self) -> Seq<char> {
        self.path@
    }
}

impl FileInfo {
    /// Wrap a path reported by a native file picker.
    pub fn new(path: String) -> (f: FileInfo)
        ensures
            f@ == path@,
    {
        FileInfo { path }
    }

    /// The file's path.
    pub fn path(&self) -> (r: &str)
        ensures
            r@ == self@,
    {
        self.path.as_str()
    }
}

/// Type of file dialog.
#[derive(Debug, Clone, Copy, PartialEq, Eq, Structural)]
pub enum FileDialogType {
    /// File open dialog.
    Open,
    /// File save dialog.
    Save,
}

/// Options for file dialogs.
#[derive(Debug, Clone)]
pub struct FileDialogOptions {
    /// Whether hidden files and directories are shown.
    pub show_hidden: bool,
    /// The filetypes the user may select from, if restricted.
    pub allowed_types: Option<Vec<FileSpec>>,
}

impl Default for FileDialogOptions {
    /// The default options: hidden files are not shown and any
    /// filetype may be selected.
    fn default() -> (d: Self)
        ensures
            d.show_hidden == false,
            d.allowed_types is None,
    {
        FileDialogOptions { show_hidden: false, allowed_types: None }
    }
}

impl FileDialogOptions {
    /// Create a new set of options.
    pub fn new() -> (d: FileDialogOptions)
        ensures
            d.show_hidden == false,
            d.allowed_types is None,
    {
        FileDialogOptions::default()
    }

    /// Set the 'show hidden files' bit.
    pub fn show_hidden(self) -> (r: Self)
        ensures
            r.show_hidden == true,
            r.allowed_types == self.allowed_types,
    {
        let mut r = self;
        r.show_hidden = true;
        r
    }

    /// Set the filetypes the user is allowed to select.
    pub fn allowed_types(self, types: Vec<FileSpec>) -> (r: Self)
        ensures
            r.show_hidden == self.show_hidden,
            r.allowed_types == Some(types),
    {
        let mut r = self;
        r.allowed_types = Some(types);
        r
    }
}

/// A description of a filetype, for specifying allowed types in a
/// file dialog.
#[derive(Debug, Clone)]
pub struct FileSpec {
    /// A human readable name, describing this filetype.
    ///
    /// This should not include the file extensions; a native backend
    /// adds them when it displays the filter.
    pub name: String,
    /// The file extensions used by this file type, without the
    /// leading '.'.
    pub extensions: Vec<String>,
}

impl FileSpec {
    /// Create a new `FileSpec`.
    pub fn new(name: String, extensions: Vec<String>) -> (s: Self)
        ensures
            s.name == name,
            s.extensions == extensions,
    {
        FileSpec { name, extensions }
    }

    /// Whether `ext` (without its leading dot) names one of this
    /// filter's extensions; the comparison ignores ASCII case.
    pub fn matches_extension(&self, ext: &str) -> (r: bool)
        ensures
            r == exists|i: int|
                0 <= i < self.extensions@.len() && #[trigger] same_extension(
                    self.extensions@[i]@,
                    ext@,
                ),
    {
        let mut k: usize = 0;
        while k < self.extensions.len()
            invariant
                k <= self.extensions@.len(),
                forall|i: int|
                    0 <= i < k ==> !#[trigger] same_extension(self.extensions@[i]@, ext@),
            decreases self.extensions@.len() - k,
        {
            if eq_ignore_case(self.extensions[k].as_str(), ext) {
                return true;
            }
            k = k + 1;
        }
        false
    }

    /// Plain text files (`txt`).
    pub fn text() -> (s: FileSpec)
        ensures
            s.name@ == "Text"@,
            s.extensions@.len() == 1,
            s.extensions@[0]@ == "txt"@,
    {
        FileSpec { name: String::from_str("Text"), extensions: vec![String::from_str("txt")] }
    }

    /// Jpeg images (`jpg`, `jpeg`).
    pub fn jpg() -> (s: FileSpec)
        ensures
            s.name@ == "Jpeg"@,
            s.extensions@.len() == 2,
            s.extensions@[0]@ == "jpg"@,
            s.extensions@[1]@ == "jpeg"@,
    {
        FileSpec {
            name: String::from_str("Jpeg"),
            extensions: vec![String::from_str("jpg"), String::from_str("jpeg")],
        }
    }

    /// Gif images (`gif`).
    pub fn gif() -> (s: FileSpec)
        ensures
            s.name@ == "Gif"@,
            s.extensions@.len() == 1,
            s.extensions@[0]@ == "gif"@,
    {
        FileSpec { name: String::from_str("Gif"), extensions: vec![String::from_str("gif")] }
    }

    /// PDF documents (`pdf`).
    pub fn pdf() -> (s: FileSpec)
        ensures
            s.name@ == "PDF"@,
            s.extensions@.len() == 1,
            s.extensions@[0]@ == "pdf"@,
    {
        FileSpec { name: String::from_str("PDF"), extensions: vec![String::from_str("pdf")] }
    }

    /// Web pages (`htm`, `html`).
    pub fn html() -> (s: FileSpec)
        ensures
            s.name@ == "Web Page"@,
            s.extensions@.len() == 2,
            s.extensions@[0]@ == "htm"@,
            s.extensions@[1]@ == "html"@,
    {
        FileSpec {
            name: String::from_str("Web Page"),
            extensions: vec![String::from_str("htm"), String::from_str("html")],
        }
    }
}

} // verus!
