//! Version-file detection and rewrite.
//!
//! Each supported project ecosystem is one variant of [`EcosystemKind`],
//! carrying as data the manifest filename it detects and the marker that
//! introduces the version declaration inside that manifest. Detection scans
//! the files found at a repository root in a fixed priority order (the Node
//! convention before the Python convention) and rewrites the version value of
//! the first manifest it recognises; everything else in the file is kept
//! byte for byte.

use vstd::prelude::*;

verus! {

/// The supported project ecosystems, in detection priority order: the Node
/// convention is tried before the Python convention.
#[derive(Clone, Copy, PartialEq, Eq, Structural, Debug)]
pub enum EcosystemKind {
    Node,
    Python,
}

/// One file found at a repository root: its name, its decoded text content,
/// and the content identity token the hosting service returned for it.
pub struct RootFile {
    pub name: String,
    pub content: String,
    pub content_id: String,
}

/// A view of a [`RootFile`]: its three fields as character sequences.
pub struct RootFileView {
    pub name: Seq<char>,
    pub content: Seq<char>,
    pub content_id: Seq<char>,
}

impl View for RootFile {
    type V = RootFileView;

    open spec fn view(&self) -> RootFileView {
        RootFileView { name: self.name@, content: self.content@, content_id: self.content_id@ }
    }
}

impl DeepView for RootFile {
    type V = RootFileView;

    open spec fn deep_view(&self) -> RootFileView {
        self.view()
    }
}

/// The version file discovered at a repository root: where it lives, which
/// ecosystem convention matched, the identity token of its current content,
/// and the content rewritten to carry the target version.
pub struct VersionFile {
    pub path: String,
    pub ecosystem: EcosystemKind,
    pub content_id: String,
    pub rewritten: String,
}

/// A view of a [`VersionFile`].
pub struct VersionFileView {
    pub path: Seq<char>,
    pub ecosystem: EcosystemKind,
    pub content_id: Seq<char>,
    pub rewritten: Seq<char>,
}

impl View for VersionFile {
    type V = VersionFileView;

    open spec fn view(&self) -> VersionFileView {
        VersionFileView {
            path: self.path@,
            ecosystem: self.ecosystem,
            content_id: self.content_id@,
            rewritten: self.rewritten@,
        }
    }
}

impl DeepView for VersionFile {
    type V = VersionFileView;

    open spec fn deep_view(&self) -> VersionFileView {
        self.view()
    }
}

/// The manifest filename of the Node convention.
pub open spec fn node_manifest_name() -> Seq<char> {
    "package.json"@
}

/// The manifest filename of the Python convention.
pub open spec fn python_manifest_name() -> Seq<char> {
    "pyproject.toml"@
}

/// The text that introduces the version value inside a Node manifest; the
/// value runs from here to the next double quote.
pub open spec fn node_marker() -> Seq<char> {
    "\"version\": \""@
}

/// The text that introduces the version value inside a Python manifest; the
/// value runs from here to the next double quote.
pub open spec fn python_marker() -> Seq<char> {
    "version = \""@
}

/// The manifest filename detected by an ecosystem convention.
pub open spec fn manifest_name_of(kind: EcosystemKind) -> Seq<char> {
    match kind {
        EcosystemKind::Node => node_manifest_name(),
        EcosystemKind::Python => python_manifest_name(),
    }
}

/// The version marker of an ecosystem convention.
pub open spec fn marker_of(kind: EcosystemKind) -> Seq<char> {
    match kind {
        EcosystemKind::Node => node_marker(),
        EcosystemKind::Python => python_marker(),
    }
}

/// `pat` occurs in `content` starting exactly at position `i`.
pub open spec fn matches_at(content: Seq<char>, pat: Seq<char>, i: int) -> bool {
    &&& 0 <= i
    &&& i + pat.len() <= content.len()
    &&& content.subrange(i, i + pat.len() as int) == pat
}

/// The position of the first occurrence of `pat` in `content` at or after
/// `from`, if any.
pub open spec fn find_pat_from(content: Seq<char>, pat: Seq<char>, from: int) -> Option<int>
    decreases content.len() + 1 - from,
{
    if from < 0 || from + pat.len() > content.len() {
        None
    } else if matches_at(content, pat, from) {
        Some(from)
    } else {
        find_pat_from(content, pat, from + 1)
    }
}

/// The position of the first occurrence of character `c` in `content` at or
/// after `from`, if any.
pub open spec fn find_char_from(content: Seq<char>, c: char, from: int) -> Option<int>
    decreases content.len() - from,
{
    if from < 0 || from >= content.len() {
        None
    } else if content[from] == c {
        Some(from)
    } else {
        find_char_from(content, c, from + 1)
    }
}

/// What rewriting a manifest returns: if the marker occurs and a closing
/// double quote follows its first occurrence, the characters between them
/// (the current version value) are replaced by `version` and everything else
/// is kept; otherwise the content is returned unchanged.
pub open spec fn spec_rewrite(content: Seq<char>, marker: Seq<char>, version: Seq<char>) -> Seq<
    char,
> {
    match find_pat_from(content, marker, 0) {
        None => content,
        Some(i) => match find_char_from(content, '"', i + marker.len() as int) {
            None => content,
            Some(j) => content.subrange(0, i + marker.len() as int) + version + content.subrange(
                j,
                content.len() as int,
            ),
        },
    }
}

/// A `Some` answer of `find_pat_from` is a match, and the first one at or
/// after `from`.
pub proof fn lemma_find_pat_from_some(content: Seq<char>, pat: Seq<char>, from: int, i: int)
    requires
        find_pat_from(content, pat, from) == Some(i),
    ensures
        from <= i,
        matches_at(content, pat, i),
        forall|k: int| from <= k < i ==> !matches_at(content, pat, k),
    decreases content.len() + 1 - from,
{
    if from < 0 || from + pat.len() > content.len() {
    } else if matches_at(content, pat, from) {
    } else {
        lemma_find_pat_from_some(content, pat, from + 1, i);
    }
}

/// A `Some` answer of `find_char_from` points at the character, and at the
/// first occurrence at or after `from`.
pub proof fn lemma_find_char_from_some(content: Seq<char>, c: char, from: int, j: int)
    requires
        find_char_from(content, c, from) == Some(j),
    ensures
        from <= j < content.len(),
        content[j] == c,
        forall|k: int| from <= k < j ==> content[k] != c,
    decreases content.len() - from,
{
    if from < 0 || from >= content.len() {
    } else if content[from] == c {
    } else {
        lemma_find_char_from_some(content, c, from + 1, j);
    }
}

/// The first match at or after `from` determines `find_pat_from`'s answer.
pub proof fn lemma_find_pat_from_first(content: Seq<char>, pat: Seq<char>, from: int, i: int)
    requires
        0 <= from <= i,
        matches_at(content, pat, i),
        forall|k: int| from <= k < i ==> !matches_at(content, pat, k),
    ensures
        find_pat_from(content, pat, from) == Some(i),
    decreases i - from,
{
    if from < i {
        lemma_find_pat_from_first(content, pat, from + 1, i);
    }
}

/// The first occurrence at or after `from` determines `find_char_from`'s
/// answer.
pub proof fn lemma_find_char_from_first(content: Seq<char>, c: char, from: int, j: int)
    requires
        0 <= from <= j < content.len(),
        content[j] == c,
        forall|k: int| from <= k < j ==> content[k] != c,
    ensures
        find_char_from(content, c, from) == Some(j),
    decreases j - from,
{
    if from < j {
        lemma_find_char_from_first(content, c, from + 1, j);
    }
}

/// How many newline characters a text holds; its line count is one more.
pub open spec fn newline_count(s: Seq<char>) -> int
    decreases s.len(),
{
    if s.len() == 0 {
        0
    } else {
        newline_count(s.drop_last()) + if s.last() == '\n' {
            1int
        } else {
            0int
        }
    }
}

/// Newline counting distributes over concatenation.
pub proof fn lemma_newline_count_add(a: Seq<char>, b: Seq<char>)
    ensures
        newline_count(a + b) == newline_count(a) + newline_count(b),
    decreases b.len(),
{
    if b.len() == 0 {
        assert(a + b =~= a);
    } else {
        assert((a + b).drop_last() =~= a + b.drop_last());
        lemma_newline_count_add(a, b.drop_last());
    }
}

/// A text without newline characters counts zero of them.
pub proof fn lemma_newline_count_none(s: Seq<char>)
    requires
        forall|k: int| 0 <= k < s.len() ==> s[k] != '\n',
    ensures
        newline_count(s) == 0,
    decreases s.len(),
{
    if s.len() > 0 {
        lemma_newline_count_none(s.drop_last());
    }
}

/// Detector priority: whenever a root file set holds both a file named after
/// the Node convention and one named after the Python convention, detection
/// selects the Node convention.
pub proof fn lemma_detector_priority(files: Seq<RootFileView>, version: Seq<char>)
    requires
        exists|i: int| 0 <= i < files.len() && files[i].name == node_manifest_name(),
        exists|j: int| 0 <= j < files.len() && files[j].name == python_manifest_name(),
    ensures
        spec_detect(files, version) is Some,
        spec_detect(files, version)->Some_0.ecosystem == EcosystemKind::Node,
{
    if first_named_from(files, node_manifest_name(), 0) is None {
        lemma_first_named_from_none(files, node_manifest_name(), 0);
    }
}

/// Rewriting a manifest that declares version `v1` to version `v2` replaces
/// exactly the value `v1` and keeps every other character: for a manifest of
/// the shape `pre + marker + v1 + '"' + post` whose first marker occurrence
/// starts right after `pre` and whose value `v1` holds no double quote, the
/// rewrite returns `pre + marker + v2 + '"' + post`; and when neither `v1`
/// nor `v2` holds a newline, the newline count — hence the line count — is
/// unchanged.
pub proof fn lemma_rewrite_changes_only_version(
    pre: Seq<char>,
    marker: Seq<char>,
    v1: Seq<char>,
    v2: Seq<char>,
    post: Seq<char>,
)
    requires
        forall|k: int|
            0 <= k < pre.len() ==> !matches_at(pre + marker + v1 + seq!['"'] + post, marker, k),
        forall|k: int| 0 <= k < v1.len() ==> v1[k] != '"',
    ensures
        spec_rewrite(pre + marker + v1 + seq!['"'] + post, marker, v2) == pre + marker + v2 + seq![
            '"',
        ] + post,
        (forall|k: int| 0 <= k < v1.len() ==> v1[k] != '\n') && (forall|k: int|
            0 <= k < v2.len() ==> v2[k] != '\n') ==> newline_count(
            spec_rewrite(pre + marker + v1 + seq!['"'] + post, marker, v2),
        ) == newline_count(pre + marker + v1 + seq!['"'] + post),
{
    let content = pre + marker + v1 + seq!['"'] + post;
    let i = pre.len() as int;
    let e = i + marker.len() as int;
    let j = e + v1.len() as int;
    assert(matches_at(content, marker, i)) by {
        assert(content.subrange(i, e) =~= marker);
    }
    lemma_find_pat_from_first(content, marker, 0, i);
    assert(content[j] == '"');
    assert forall|k: int| e <= k < j implies content[k] != '"' by {
        assert(content[k] == v1[k - e]);
    }
    lemma_find_char_from_first(content, '"', e, j);
    let rewritten = spec_rewrite(content, marker, v2);
    assert(content.subrange(0, e) =~= pre + marker);
    assert(content.subrange(j, content.len() as int) =~= seq!['"'] + post);
    assert(rewritten =~= pre + marker + v2 + seq!['"'] + post);
    if (forall|k: int| 0 <= k < v1.len() ==> v1[k] != '\n') && (forall|k: int|
        0 <= k < v2.len() ==> v2[k] != '\n') {
        let head = pre + marker;
        let tail = seq!['"'] + post;
        assert(content =~= head + (v1 + tail));
        assert(rewritten =~= head + (v2 + tail));
        lemma_newline_count_add(head, v1 + tail);
        lemma_newline_count_add(head, v2 + tail);
        lemma_newline_count_add(v1, tail);
        lemma_newline_count_add(v2, tail);
        lemma_newline_count_none(v1);
        lemma_newline_count_none(v2);
    }
}

/// Whether `pat` occurs in `content` starting at `i`, by character
/// comparison.
fn match_at(content: &str, pat: &str, i: usize) -> (r: bool)
    requires
        i + pat@.len() <= content@.len(),
    ensures
        r == matches_at(content@, pat@, i as int),
{
    let n = content.unicode_len();
    let m = pat.unicode_len();
    let mut j: usize = 0;
    while j < m
        invariant
            n == content@.len(),
            m == pat@.len(),
            i + m <= n,
            0 <= j <= m,
            forall|k: int| 0 <= k < j ==> content@[i + k] == pat@[k],
        decreases m - j,
    {
        if content.get_char(i + j) != pat.get_char(j) {
            assert(!matches_at(content@, pat@, i as int)) by {
                assert(content@.subrange(i as int, i + m as int)[j as int] == content@[i + j]);
            }
            return false;
        }
        j = j + 1;
    }
    assert(content@.subrange(i as int, i + m as int) =~= pat@);
    true
}

/// The position of the first occurrence of `pat` in `content`, if any.
fn find_pattern(content: &str, pat: &str) -> (r: Option<usize>)
    ensures
        r matches Some(i) ==> find_pat_from(content@, pat@, 0) == Some(i as int),
        r is None ==> find_pat_from(content@, pat@, 0) is None,
{
    let n = content.unicode_len();
    let m = pat.unicode_len();
    if m > n {
        return None;
    }
    if m == 0 {
        assert(content@.subrange(0, 0) =~= pat@);
        return Some(0);
    }
    let mut i: usize = 0;
    while i <= n - m
        invariant
            n == content@.len(),
            m == pat@.len(),
            1 <= m <= n,
            0 <= i <= n - m + 1,
            find_pat_from(content@, pat@, 0) == find_pat_from(content@, pat@, i as int),
        decreases n - m + 1 - i,
    {
        if match_at(content, pat, i) {
            return Some(i);
        }
        i = i + 1;
    }
    None
}

/// The position of the first double quote in `content` at or after `from`,
/// if any.
fn find_quote(content: &str, from: usize) -> (r: Option<usize>)
    ensures
        r matches Some(j) ==> find_char_from(content@, '"', from as int) == Some(j as int),
        r is None ==> find_char_from(content@, '"', from as int) is None,
{
    let n = content.unicode_len();
    let mut j: usize = from;
    while j < n
        invariant
            n == content@.len(),
            from <= j,
            find_char_from(content@, '"', from as int) == find_char_from(content@, '"', j as int),
        decreases n - j,
    {
        if content.get_char(j) == '"' {
            return Some(j);
        }
        j = j + 1;
    }
    None
}

/// The manifest filename an ecosystem convention detects.
pub fn manifest_name(kind: EcosystemKind) -> (r: &'static str)
    ensures
        r@ == manifest_name_of(kind),
{
    match kind {
        EcosystemKind::Node => "package.json",
        EcosystemKind::Python => "pyproject.toml",
    }
}

/// The text that introduces the version value in an ecosystem's manifest.
pub fn manifest_marker(kind: EcosystemKind) -> (r: &'static str)
    ensures
        r@ == marker_of(kind),
{
    match kind {
        EcosystemKind::Node => "\"version\": \"",
        EcosystemKind::Python => "version = \"",
    }
}

/// Rewrites the version value of a manifest to `version`, as
/// [`spec_rewrite`] states: only the characters between the first occurrence
/// of the ecosystem's marker and the next double quote are replaced; if the
/// marker or the closing quote is absent, the content comes back unchanged.
pub fn rewrite_version(content: &str, kind: EcosystemKind, version: &str) -> (r: String)
    ensures
        r@ == spec_rewrite(content@, marker_of(kind), version@),
{
    let marker = manifest_marker(kind);
    let n = content.unicode_len();
    match find_pattern(content, marker) {
        None => content.to_owned(),
        Some(i) => {
            proof {
                lemma_find_pat_from_some(content@, marker@, 0, i as int);
            }
            let e = i + marker.unicode_len();
            match find_quote(content, e) {
                None => content.to_owned(),
                Some(j) => {
                    proof {
                        lemma_find_char_from_some(content@, '"', e as int, j as int);
                    }
                    let mut r = content.substring_char(0, e).to_owned();
                    r.append(version);
                    r.append(content.substring_char(j, n));
                    r
                },
            }
        },
    }
}

/// What detection returns for a root file set: the first file named after
/// the Node convention if there is one, else the first file named after the
/// Python convention, else nothing; the chosen file's content is rewritten
/// to the target version.
pub open spec fn spec_detect(files: Seq<RootFileView>, version: Seq<char>) -> Option<
    VersionFileView,
> {
    match first_named_from(files, node_manifest_name(), 0) {
        Some(i) => Some(spec_version_file(files[i], EcosystemKind::Node, version)),
        None => match first_named_from(files, python_manifest_name(), 0) {
            Some(i) => Some(spec_version_file(files[i], EcosystemKind::Python, version)),
            None => None,
        },
    }
}

/// The version file built from a detected root file.
pub open spec fn spec_version_file(
    file: RootFileView,
    kind: EcosystemKind,
    version: Seq<char>,
) -> VersionFileView {
    VersionFileView {
        path: manifest_name_of(kind),
        ecosystem: kind,
        content_id: file.content_id,
        rewritten: spec_rewrite(file.content, marker_of(kind), version),
    }
}

/// The index of the first file carrying `name` at or after `from`, if any.
pub open spec fn first_named_from(files: Seq<RootFileView>, name: Seq<char>, from: int) -> Option<
    int,
>
    decreases files.len() - from,
{
    if from < 0 || from >= files.len() {
        None
    } else if files[from].name == name {
        Some(from)
    } else {
        first_named_from(files, name, from + 1)
    }
}

/// A `Some` answer of `first_named_from` is the first file so named.
pub proof fn lemma_first_named_from_some(
    files: Seq<RootFileView>,
    name: Seq<char>,
    from: int,
    i: int,
)
    requires
        first_named_from(files, name, from) == Some(i),
    ensures
        from <= i < files.len(),
        files[i].name == name,
        forall|k: int| from <= k < i ==> files[k].name != name,
    decreases files.len() - from,
{
    if from < 0 || from >= files.len() {
    } else if files[from].name == name {
    } else {
        lemma_first_named_from_some(files, name, from + 1, i);
    }
}

/// A `None` answer of `first_named_from` means no file at or after `from`
/// carries `name`.
pub proof fn lemma_first_named_from_none(files: Seq<RootFileView>, name: Seq<char>, from: int)
    requires
        0 <= from,
        first_named_from(files, name, from) is None,
    ensures
        forall|k: int| from <= k < files.len() ==> files[k].name != name,
    decreases files.len() - from,
{
    if from < 0 || from >= files.len() {
    } else {
        lemma_first_named_from_none(files, name, from + 1);
    }
}

/// The index of the first file named `name`, if any.
fn find_named(files: &Vec<RootFile>, name: &str) -> (r: Option<usize>)
    ensures
        r matches Some(i) ==> first_named_from(files.deep_view(), name@, 0) == Some(i as int),
        r is None ==> first_named_from(files.deep_view(), name@, 0) is None,
{
    let ghost fv = files.deep_view();
    let mut i: usize = 0;
    while i < files.len()
        invariant
            fv == files.deep_view(),
            fv.len() == files.len(),
            0 <= i <= files.len(),
            first_named_from(fv, name@, 0) == first_named_from(fv, name@, i as int),
        decreases files.len() - i,
    {
        assert(fv[i as int].name == files[i as int].name@);
        if str_equal(files[i].name.as_str(), name) {
            return Some(i);
        }
        i = i + 1;
    }
    None
}

/// Whether two text slices hold the same characters.
fn str_equal(a: &str, b: &str) -> (r: bool)
    ensures
        r == (a@ == b@),
{
    let na = a.unicode_len();
    let nb = b.unicode_len();
    if na != nb {
        return false;
    }
    let mut i: usize = 0;
    while i < na
        invariant
            na == a@.len(),
            na == b@.len(),
            0 <= i <= na,
            forall|k: int| 0 <= k < i ==> a@[k] == b@[k],
        decreases na - i,
    {
        if a.get_char(i) != b.get_char(i) {
            return false;
        }
        i = i + 1;
    }
    assert(a@ =~= b@);
    true
}

/// Scans a repository's root files against the ecosystem conventions in
/// priority order (Node before Python) and returns the version file to
/// update, with its content rewritten to `version`; `None` exactly when no
/// file carries either convention's manifest name.
pub fn detect_version_file(files: &Vec<RootFile>, version: &str) -> (r: Option<VersionFile>)
    ensures
        r.deep_view() == spec_detect(files.deep_view(), version@),
        r is None <==> (forall|k: int|
            0 <= k < files.deep_view().len() ==> files.deep_view()[k].name != node_manifest_name()
                && files.deep_view()[k].name != python_manifest_name()),
{
    let ghost fv = files.deep_view();
    let r = detect_inner(files, version);
    proof {
        match spec_detect(fv, version@) {
            Some(_) => {
                match first_named_from(fv, node_manifest_name(), 0) {
                    Some(i) => lemma_first_named_from_some(fv, node_manifest_name(), 0, i),
                    None => {
                        lemma_first_named_from_none(fv, node_manifest_name(), 0);
                        let i = first_named_from(fv, python_manifest_name(), 0)->0;
                        lemma_first_named_from_some(fv, python_manifest_name(), 0, i);
                    },
                }
            },
            None => {
                lemma_first_named_from_none(fv, node_manifest_name(), 0);
                lemma_first_named_from_none(fv, python_manifest_name(), 0);
            },
        }
    }
    r
}

/// The detection scan itself, stated against [`spec_detect`] alone.
fn detect_inner(files: &Vec<RootFile>, version: &str) -> (r: Option<VersionFile>)
    ensures
        r.deep_view() == spec_detect(files.deep_view(), version@),
{
    let node_name = manifest_name(EcosystemKind::Node);
    match find_named(files, node_name) {
        Some(i) => {
            proof {
                lemma_first_named_from_some(
                    files.deep_view(),
                    node_manifest_name(),
                    0,
                    i as int,
                );
            }
            Some(build_version_file(&files[i], EcosystemKind::Node, version))
        },
        None => {
            let python_name = manifest_name(EcosystemKind::Python);
            match find_named(files, python_name) {
                Some(i) => {
                    proof {
                        lemma_first_named_from_some(
                            files.deep_view(),
                            python_manifest_name(),
                            0,
                            i as int,
                        );
                    }
                    Some(build_version_file(&files[i], EcosystemKind::Python, version))
                },
                None => None,
            }
        },
    }
}

/// Builds the version file for a detected root file: the convention's
/// filename as path, the file's identity token, and the rewritten content.
fn build_version_file(file: &RootFile, kind: EcosystemKind, version: &str) -> (r: VersionFile)
    ensures
        r@ == spec_version_file(file@, kind, version@),
{
    VersionFile {
        path: manifest_name(kind).to_owned(),
        ecosystem: kind,
        content_id: file.content_id.clone(),
        rewritten: rewrite_version(file.content.as_str(), kind, version),
    }
}

} // verus!
