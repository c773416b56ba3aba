//! Platform dialog driver logic.
//!
//! A platform driver invokes the host OS's file picker and reports
//! back what happened. The logic that is the same on every platform
//! lives here: normalizing the raw native outcome into a
//! [`DialogResult`] (the requester only ever sees `Selected` or
//! `Cancelled`), and translating filetype filters to and from the
//! native filter-spec shape.

use vstd::prelude::*;
use vstd::string::StrSliceExecFns;
use vstd::string::StringExecFns;
use crate::dialog::FileSpec;

verus! {

/// The normalized outcome of one dialog request: the user chose a
/// path, or the request came to nothing.
#[derive(Debug, Clone)]
pub enum DialogResult {
    /// The user chose a file; the payload is its path.
    Selected(String),
    /// The user cancelled, the owner window went away, or the native
    /// backend failed.
    Cancelled,
}

/// The mathematical value of a [`DialogResult`].
pub enum ResultModel {
    Selected(Seq<char>),
    Cancelled,
}

impl View for DialogResult {
    type V = ResultModel;

    open spec fn view(&self) -> ResultModel {
        match self {
            DialogResult::Selected(p) => ResultModel::Selected(p@),
            DialogResult::Cancelled => ResultModel::Cancelled,
        }
    }
}

/// What a native file-picker call reported, before normalization.
#[derive(Debug, Clone)]
pub enum NativeOutcome {
    /// The native API reported success with the given path.
    Success(String),
    /// The user dismissed the picker.
    Cancelled,
    /// The native API failed; the payload is its diagnostic text.
    Failure(String),
}

/// The mathematical value of a [`NativeOutcome`].
pub enum OutcomeModel {
    Success(Seq<char>),
    Cancelled,
    Failure(Seq<char>),
}

impl View for NativeOutcome {
    type V = OutcomeModel;

    open spec fn view(&self) -> OutcomeModel {
        match self {
            NativeOutcome::Success(p) => OutcomeModel::Success(p@),
            NativeOutcome::Cancelled => OutcomeModel::Cancelled,
            NativeOutcome::Failure(d) => OutcomeModel::Failure(d@),
        }
    }
}

/// How a native outcome is normalized: a selection is reported only
/// when the native API succeeded with a non-empty path; a dismissal
/// and a backend failure both look like a cancellation.
pub open spec fn normalize_model(o: OutcomeModel) -> ResultModel {
    match o {
        OutcomeModel::Success(p) => if p.len() > 0 {
            ResultModel::Selected(p)
        } else {
            ResultModel::Cancelled
        },
        OutcomeModel::Cancelled => ResultModel::Cancelled,
        OutcomeModel::Failure(_) => ResultModel::Cancelled,
    }
}

/// Normalize what a native picker reported into a [`DialogResult`].
///
/// A native failure is absorbed here, so that a failed dialog looks
/// to the requester exactly like a cancelled one.
pub fn normalize_outcome(o: NativeOutcome) -> (r: DialogResult)
    ensures
        r@ == normalize_model(o@),
{
    match o {
        NativeOutcome::Success(p) => {
            if p.as_str().is_empty() {
                DialogResult::Cancelled
            } else {
                DialogResult::Selected(p)
            }
        },
        NativeOutcome::Cancelled => DialogResult::Cancelled,
        NativeOutcome::Failure(_) => DialogResult::Cancelled,
    }
}

/// One filter in the shape a native filter-spec takes: a display
/// label and one glob pattern (`*.ext`) per extension.
#[derive(Debug, Clone)]
pub struct NativeFilterSpec {
    /// The label the picker displays for this filter.
    pub label: String,
    /// One `*.ext` pattern per extension, in the filter's order.
    pub patterns: Vec<String>,
}

/// A filetype filter recovered from its native form.
#[derive(Debug, Clone)]
pub struct FileTypeFilter {
    /// The human readable name of the filetype.
    pub display_name: String,
    /// The extensions, without the leading '.'.
    pub extensions: Vec<String>,
}

/// The glob pattern a native filter uses for one extension.
pub open spec fn glob_of(ext: Seq<char>) -> Seq<char> {
    seq!['*', '.'] + ext
}

/// The extension a glob pattern stands for.
pub open spec fn ext_of(glob: Seq<char>) -> Seq<char> {
    glob.subrange(2, glob.len() as int)
}

/// The shape of glob pattern this module produces: `*.` followed by
/// the extension.
pub open spec fn glob_wf(glob: Seq<char>) -> bool {
    glob.len() >= 2 && glob[0] == '*' && glob[1] == '.'
}

/// `n` is the native translation of the filter `f`.
pub open spec fn is_native_of(n: NativeFilterSpec, f: FileSpec) -> bool {
    &&& n.label@ == f.name@
    &&& n.patterns@.len() == f.extensions@.len()
    &&& forall|j: int|
        0 <= j < n.patterns@.len() ==> n.patterns@[j]@ == glob_of(f.extensions@[j]@)
}

/// Every pattern of `n` has the `*.ext` shape.
pub open spec fn native_wf(n: NativeFilterSpec) -> bool {
    forall|j: int| 0 <= j < n.patterns@.len() ==> glob_wf(n.patterns@[j]@)
}

/// `f` is the filter read back from the native filter-spec `n`.
pub open spec fn recovers(f: FileTypeFilter, n: NativeFilterSpec) -> bool {
    &&& f.display_name@ == n.label@
    &&& f.extensions@.len() == n.patterns@.len()
    &&& forall|j: int|
        0 <= j < f.extensions@.len() ==> f.extensions@[j]@ == ext_of(n.patterns@[j]@)
}

/// Translate one [`FileSpec`] into the native filter-spec format.
pub fn to_native(fs: &FileSpec) -> (n: NativeFilterSpec)
    ensures
        is_native_of(n, *fs),
        native_wf(n),
{
    let mut patterns: Vec<String> = Vec::new();
    let mut k: usize = 0;
    proof {
        reveal_strlit("*.");
        assert("*."@ =~= seq!['*', '.']);
    }
    while k < fs.extensions.len()
        invariant
            k <= fs.extensions@.len(),
            patterns@.len() == k,
            "*."@ =~= seq!['*', '.'],
            forall|j: int| 0 <= j < k ==> patterns@[j]@ == glob_of(fs.extensions@[j]@),
        decreases fs.extensions@.len() - k,
    {
        let mut g = String::from_str("*.");
        g.append(fs.extensions[k].as_str());
        patterns.push(g);
        k = k + 1;
    }
    let n = NativeFilterSpec { label: fs.name.clone(), patterns };
    proof {
        assert forall|j: int| 0 <= j < n.patterns@.len() implies glob_wf(n.patterns@[j]@) by {
            assert(n.patterns@[j]@ == glob_of(fs.extensions@[j]@));
        }
    }
    n
}

/// Translate a native filter-spec back into a platform-independent
/// filter, stripping the `*.` of each pattern.
pub fn from_native(n: &NativeFilterSpec) -> (f: FileTypeFilter)
    requires
        native_wf(*n),
    ensures
        recovers(f, *n),
{
    let mut extensions: Vec<String> = Vec::new();
    let mut k: usize = 0;
    while k < n.patterns.len()
        invariant
            k <= n.patterns@.len(),
            extensions@.len() == k,
            native_wf(*n),
            forall|j: int| 0 <= j < k ==> extensions@[j]@ == ext_of(n.patterns@[j]@),
        decreases n.patterns@.len() - k,
    {
        let p = n.patterns[k].as_str();
        let len = p.unicode_len();
        let ext = p.substring_char(2, len);
        extensions.push(String::from_str(ext));
        k = k + 1;
    }
    FileTypeFilter { display_name: n.label.clone(), extensions }
}

/// Translate the allowed-types list of a request into native form,
/// one native filter-spec per [`FileSpec`], in order.
///
/// This is the filter translation a platform driver performs before
/// it invokes the native picker.
pub fn translate_filters(types: &Vec<FileSpec>) -> (ns: Vec<NativeFilterSpec>)
    ensures
        ns@.len() == types@.len(),
        forall|i: int| 0 <= i < ns@.len() ==> #[trigger] is_native_of(ns@[i], types@[i]),
{
    let mut ns: Vec<NativeFilterSpec> = Vec::new();
    let mut k: usize = 0;
    while k < types.len()
        invariant
            k <= types@.len(),
            ns@.len() == k,
            forall|i: int| 0 <= i < k ==> #[trigger] is_native_of(ns@[i], types@[i]),
        decreases types@.len() - k,
    {
        let n = to_native(&types[k]);
        ns.push(n);
        k = k + 1;
    }
    ns
}

/// Filter round-trip: a filter translated to native form and read
/// back from it keeps its name and its whole extension list.
pub proof fn lemma_filter_round_trip(f: FileSpec, n: NativeFilterSpec, g: FileTypeFilter)
    requires
        is_native_of(n, f),
        recovers(g, n),
    ensures
        g.display_name@ == f.name@,
        g.extensions@.len() == f.extensions@.len(),
        forall|j: int| 0 <= j < g.extensions@.len() ==> g.extensions@[j]@ == f.extensions@[j]@,
{
    assert forall|j: int|
        0 <= j < g.extensions@.len() implies g.extensions@[j]@ == f.extensions@[j]@ by {
        assert(n.patterns@[j]@ == glob_of(f.extensions@[j]@));
        assert(ext_of(glob_of(f.extensions@[j]@)) =~= f.extensions@[j]@);
    }
}

} // verus!
