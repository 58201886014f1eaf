//! File system paths, as the parts that paths are compared and named by.
use vstd::prelude::*;
use vstd::std_specs::cmp::PartialEqSpecImpl;
use vstd::utf8::*;

use crate::sort::Ranked;
use crate::text;

verus! {

/// What stands before the root of a path on some systems, as it was parsed: two
/// ways to write a prefix that parse alike are the same prefix. The case of a
/// drive's letter does not matter.
#[derive(Debug, PartialEq, Eq)]
pub enum PathPrefix {
    /// A prefix that is taken as it stands, such as `\\?\pictures`.
    Verbatim(Vec<u8>),
    /// A share of a server that is taken as it stands, such as
    /// `\\?\UNC\server\share`.
    VerbatimUnc(Vec<u8>, Vec<u8>),
    /// A drive that is taken as it stands, such as `\\?\C:`.
    VerbatimDisk(u8),
    /// A device, such as `\\.\COM42`.
    DeviceNs(Vec<u8>),
    /// A share of a server, such as `\\server\share`.
    Unc(Vec<u8>, Vec<u8>),
    /// A drive, such as `C:`.
    Disk(u8),
}

/// What a prefix stands for.
pub enum PathPrefixView {
    Verbatim(Seq<u8>),
    VerbatimUnc(Seq<u8>, Seq<u8>),
    VerbatimDisk(u8),
    DeviceNs(Seq<u8>),
    Unc(Seq<u8>, Seq<u8>),
    Disk(u8),
}

/// The letter of a drive, in upper case.
pub open spec fn drive(letter: u8) -> u8 {
    if 0x61 <= letter <= 0x7a {
        (letter - 32) as u8
    } else {
        letter
    }
}

fn drive_letter(letter: u8) -> (r: u8)
    ensures
        r == drive(letter),
{
    if 0x61 <= letter && letter <= 0x7a {
        letter - 32
    } else {
        letter
    }
}

impl DeepView for PathPrefix {
    type V = PathPrefixView;

    open spec fn deep_view(&self) -> PathPrefixView {
        match self {
            PathPrefix::Verbatim(name) => PathPrefixView::Verbatim(name@),
            PathPrefix::VerbatimUnc(server, share) => PathPrefixView::VerbatimUnc(server@, share@),
            PathPrefix::VerbatimDisk(letter) => PathPrefixView::VerbatimDisk(drive(*letter)),
            PathPrefix::DeviceNs(name) => PathPrefixView::DeviceNs(name@),
            PathPrefix::Unc(server, share) => PathPrefixView::Unc(server@, share@),
            PathPrefix::Disk(letter) => PathPrefixView::Disk(drive(*letter)),
        }
    }
}

/// One part of a path.
#[derive(Debug, PartialEq, Eq)]
pub enum PathPart {
    /// What stands before the root on some systems, such as a drive.
    Prefix(PathPrefix),
    /// The root directory.
    Root,
    /// A reference to the current directory.
    Current,
    /// A reference to the parent directory.
    Parent,
    /// A name, in the encoding of the file system.
    Normal(Vec<u8>),
}

/// What a part of a path stands for.
pub enum PathPartView {
    Prefix(PathPrefixView),
    Root,
    Current,
    Parent,
    Normal(Seq<u8>),
}

impl DeepView for PathPart {
    type V = PathPartView;

    open spec fn deep_view(&self) -> PathPartView {
        match self {
            PathPart::Prefix(prefix) => PathPartView::Prefix(prefix.deep_view()),
            PathPart::Root => PathPartView::Root,
            PathPart::Current => PathPartView::Current,
            PathPart::Parent => PathPartView::Parent,
            PathPart::Normal(name) => PathPartView::Normal(name@),
        }
    }
}

/// A path: how it is written, and its parts. Paths that are written
/// differently are the same path when they have the same parts.
#[derive(Debug)]
pub struct RepoPath {
    pub text: String,
    pub parts: Vec<PathPart>,
}

/// What a path stands for.
pub struct RepoPathView {
    pub text: Seq<char>,
    pub parts: Seq<PathPartView>,
}

impl DeepView for RepoPath {
    type V = RepoPathView;

    open spec fn deep_view(&self) -> RepoPathView {
        RepoPathView { text: self.text@, parts: self.parts.deep_view() }
    }
}

/// The order of byte strings, byte by byte; a string comes before every longer
/// one that begins with it.
pub open spec fn bytes_le(a: Seq<u8>, b: Seq<u8>) -> bool
    decreases a.len(),
{
    if a.len() == 0 {
        true
    } else if b.len() == 0 {
        false
    } else if a[0] == b[0] {
        bytes_le(a.drop_first(), b.drop_first())
    } else {
        a[0] < b[0]
    }
}

/// The kinds of prefixes, in the order in which they are ranked.
pub open spec fn prefix_kind(prefix: PathPrefixView) -> int {
    match prefix {
        PathPrefixView::Verbatim(_) => 0,
        PathPrefixView::VerbatimUnc(_, _) => 1,
        PathPrefixView::VerbatimDisk(_) => 2,
        PathPrefixView::DeviceNs(_) => 3,
        PathPrefixView::Unc(_, _) => 4,
        PathPrefixView::Disk(_) => 5,
    }
}

/// The one or two names that a prefix carries; where there is one, the second is
/// empty.
pub open spec fn prefix_names(prefix: PathPrefixView) -> (Seq<u8>, Seq<u8>) {
    match prefix {
        PathPrefixView::Verbatim(name) => (name, Seq::empty()),
        PathPrefixView::VerbatimUnc(server, share) => (server, share),
        PathPrefixView::VerbatimDisk(letter) => (seq![letter], Seq::empty()),
        PathPrefixView::DeviceNs(name) => (name, Seq::empty()),
        PathPrefixView::Unc(server, share) => (server, share),
        PathPrefixView::Disk(letter) => (seq![letter], Seq::empty()),
    }
}

/// The order of prefixes: by kind, then by the first name, then by the second.
pub open spec fn prefix_le(a: PathPrefixView, b: PathPrefixView) -> bool {
    let (a1, a2) = prefix_names(a);
    let (b1, b2) = prefix_names(b);
    ||| prefix_kind(a) < prefix_kind(b)
    ||| prefix_kind(a) == prefix_kind(b) && a1 != b1 && bytes_le(a1, b1)
    ||| prefix_kind(a) == prefix_kind(b) && a1 == b1 && bytes_le(a2, b2)
}

/// The kinds of parts, in the order in which they are ranked.
pub open spec fn part_kind(part: PathPartView) -> int {
    match part {
        PathPartView::Prefix(_) => 0,
        PathPartView::Root => 1,
        PathPartView::Current => 2,
        PathPartView::Parent => 3,
        PathPartView::Normal(_) => 4,
    }
}

/// The order of parts: by kind, then by prefix or name.
pub open spec fn part_le(a: PathPartView, b: PathPartView) -> bool {
    match (a, b) {
        (PathPartView::Prefix(p), PathPartView::Prefix(q)) => prefix_le(p, q),
        (PathPartView::Normal(m), PathPartView::Normal(n)) => bytes_le(m, n),
        _ => part_kind(a) <= part_kind(b),
    }
}

/// The order of paths: part by part; a directory comes before what it holds.
pub open spec fn parts_le(a: Seq<PathPartView>, b: Seq<PathPartView>) -> bool
    decreases a.len(),
{
    if a.len() == 0 {
        true
    } else if b.len() == 0 {
        false
    } else if a[0] == b[0] {
        parts_le(a.drop_first(), b.drop_first())
    } else {
        part_le(a[0], b[0])
    }
}

proof fn lemma_bytes_order(a: Seq<u8>, b: Seq<u8>, c: Seq<u8>)
    ensures
        bytes_le(a, b) || bytes_le(b, a),
        bytes_le(a, b) && bytes_le(b, c) ==> bytes_le(a, c),
        bytes_le(a, b) && bytes_le(b, a) ==> a == b,
    decreases a.len(),
{
    if a.len() > 0 && b.len() > 0 {
        if c.len() > 0 {
            lemma_bytes_order(a.drop_first(), b.drop_first(), c.drop_first());
        } else {
            lemma_bytes_order(a.drop_first(), b.drop_first(), c);
        }
        assert(a =~= seq![a[0]] + a.drop_first());
        assert(b =~= seq![b[0]] + b.drop_first());
    } else if a.len() == 0 && b.len() == 0 {
        assert(a =~= b);
    }
}

proof fn lemma_prefix_order(a: PathPrefixView, b: PathPrefixView, c: PathPrefixView)
    ensures
        prefix_le(a, b) || prefix_le(b, a),
        prefix_le(a, b) && prefix_le(b, c) ==> prefix_le(a, c),
        prefix_le(a, b) && prefix_le(b, a) ==> a == b,
{
    let (a1, a2) = prefix_names(a);
    let (b1, b2) = prefix_names(b);
    let (c1, c2) = prefix_names(c);
    lemma_bytes_order(a1, b1, c1);
    lemma_bytes_order(b1, c1, a1);
    lemma_bytes_order(a2, b2, c2);
    assert forall|x: u8, y: u8| seq![x] == seq![y] implies x == y by {
        assert(seq![x][0] == x && seq![y][0] == y);
    }
}

proof fn lemma_part_order(a: PathPartView, b: PathPartView, c: PathPartView)
    ensures
        part_le(a, b) || part_le(b, a),
        part_le(a, b) && part_le(b, c) ==> part_le(a, c),
        part_le(a, b) && part_le(b, a) ==> a == b,
{
    if let PathPartView::Normal(m) = a {
        if let PathPartView::Normal(n) = b {
            if let PathPartView::Normal(o) = c {
                lemma_bytes_order(m, n, o);
            } else {
                lemma_bytes_order(m, n, n);
            }
        }
    }
    if let PathPartView::Prefix(p) = a {
        if let PathPartView::Prefix(q) = b {
            if let PathPartView::Prefix(r) = c {
                lemma_prefix_order(p, q, r);
            } else {
                lemma_prefix_order(p, q, q);
            }
        }
    }
}

/// The order of paths is total, transitive and antisymmetric.
pub proof fn lemma_parts_order(
    a: Seq<PathPartView>,
    b: Seq<PathPartView>,
    c: Seq<PathPartView>,
)
    ensures
        parts_le(a, b) || parts_le(b, a),
        parts_le(a, b) && parts_le(b, c) ==> parts_le(a, c),
        parts_le(a, b) && parts_le(b, a) ==> a == b,
    decreases a.len(),
{
    if a.len() > 0 && b.len() > 0 {
        if c.len() > 0 {
            lemma_parts_order(a.drop_first(), b.drop_first(), c.drop_first());
            lemma_part_order(a[0], b[0], c[0]);
            lemma_part_order(b[0], c[0], a[0]);
        } else {
            lemma_parts_order(a.drop_first(), b.drop_first(), c);
            lemma_part_order(a[0], b[0], b[0]);
        }
        assert(a =~= seq![a[0]] + a.drop_first());
        assert(b =~= seq![b[0]] + b.drop_first());
    } else if a.len() == 0 && b.len() == 0 {
        assert(a =~= b);
    }
}

/// Tells whether byte string `a` comes before `b` or is the same.
fn bytes_not_after(a: &Vec<u8>, b: &Vec<u8>) -> (r: bool)
    ensures
        r == bytes_le(a@, b@),
{
    let mut i: usize = 0;
    assert(a@.skip(0) =~= a@);
    assert(b@.skip(0) =~= b@);
    while i < a.len()
        invariant
            i <= a@.len(),
            i <= b@.len(),
            bytes_le(a@.skip(i as int), b@.skip(i as int)) == bytes_le(a@, b@),
        decreases a@.len() - i,
    {
        if i >= b.len() {
            return false;
        }
        assert(a@.skip(i as int)[0] == a@[i as int]);
        assert(b@.skip(i as int)[0] == b@[i as int]);
        if a[i] != b[i] {
            return a[i] < b[i];
        }
        assert(a@.skip(i as int).drop_first() =~= a@.skip(i + 1));
        assert(b@.skip(i as int).drop_first() =~= b@.skip(i + 1));
        i += 1;
    }
    true
}

/// Tells whether two byte strings are the same.
pub fn same_bytes(a: &Vec<u8>, b: &Vec<u8>) -> (r: bool)
    ensures
        r == (a@ == b@),
{
    if a.len() != b.len() {
        return false;
    }
    let mut i: usize = 0;
    while i < a.len()
        invariant
            a@.len() == b@.len(),
            i <= a@.len(),
            forall|k: int| 0 <= k < i ==> #[trigger] a@[k] == b@[k],
        decreases a@.len() - i,
    {
        if a[i] != b[i] {
            return false;
        }
        i += 1;
    }
    assert(a@ =~= b@);
    true
}

impl PathPrefix {
    fn kind(&self) -> (r: u8)
        ensures
            r == prefix_kind(self.deep_view()),
    {
        match self {
            PathPrefix::Verbatim(_) => 0,
            PathPrefix::VerbatimUnc(_, _) => 1,
            PathPrefix::VerbatimDisk(_) => 2,
            PathPrefix::DeviceNs(_) => 3,
            PathPrefix::Unc(_, _) => 4,
            PathPrefix::Disk(_) => 5,
        }
    }

    fn names(&self) -> (r: (Vec<u8>, Vec<u8>))
        ensures
            (r.0@, r.1@) == prefix_names(self.deep_view()),
    {
        let r = match self {
            PathPrefix::Verbatim(name) => (name.clone(), Vec::new()),
            PathPrefix::VerbatimUnc(server, share) => (server.clone(), share.clone()),
            PathPrefix::VerbatimDisk(letter) => (vec![drive_letter(*letter)], Vec::new()),
            PathPrefix::DeviceNs(name) => (name.clone(), Vec::new()),
            PathPrefix::Unc(server, share) => (server.clone(), share.clone()),
            PathPrefix::Disk(letter) => (vec![drive_letter(*letter)], Vec::new()),
        };
        assert(r.0@ =~= prefix_names(self.deep_view()).0);
        assert(r.1@ =~= prefix_names(self.deep_view()).1);
        r
    }

    /// Tells whether two prefixes are the same.
    pub fn same(&self, other: &PathPrefix) -> (r: bool)
        ensures
            r == (self.deep_view() == other.deep_view()),
    {
        match (self, other) {
            (PathPrefix::Verbatim(a), PathPrefix::Verbatim(b)) => same_bytes(a, b),
            (PathPrefix::VerbatimUnc(a, c), PathPrefix::VerbatimUnc(b, d)) => same_bytes(a, b)
                && same_bytes(c, d),
            (PathPrefix::VerbatimDisk(a), PathPrefix::VerbatimDisk(b)) => drive_letter(*a)
                == drive_letter(*b),
            (PathPrefix::DeviceNs(a), PathPrefix::DeviceNs(b)) => same_bytes(a, b),
            (PathPrefix::Unc(a, c), PathPrefix::Unc(b, d)) => same_bytes(a, b) && same_bytes(c, d),
            (PathPrefix::Disk(a), PathPrefix::Disk(b)) => drive_letter(*a) == drive_letter(*b),
            _ => false,
        }
    }

    fn may_precede(&self, other: &PathPrefix) -> (r: bool)
        ensures
            r == prefix_le(self.deep_view(), other.deep_view()),
    {
        let k = self.kind();
        let l = other.kind();
        if k != l {
            return k < l;
        }
        let (a1, a2) = self.names();
        let (b1, b2) = other.names();
        if same_bytes(&a1, &b1) {
            bytes_not_after(&a2, &b2)
        } else {
            bytes_not_after(&a1, &b1)
        }
    }
}

impl Clone for PathPrefix {
    fn clone(&self) -> (r: PathPrefix)
        ensures
            r.deep_view() == self.deep_view(),
    {
        match self {
            PathPrefix::Verbatim(name) => PathPrefix::Verbatim(name.clone()),
            PathPrefix::VerbatimUnc(server, share) => PathPrefix::VerbatimUnc(
                server.clone(),
                share.clone(),
            ),
            PathPrefix::VerbatimDisk(letter) => PathPrefix::VerbatimDisk(*letter),
            PathPrefix::DeviceNs(name) => PathPrefix::DeviceNs(name.clone()),
            PathPrefix::Unc(server, share) => PathPrefix::Unc(server.clone(), share.clone()),
            PathPrefix::Disk(letter) => PathPrefix::Disk(*letter),
        }
    }
}

impl PathPart {
    fn kind(&self) -> (r: u8)
        ensures
            r == part_kind(self.deep_view()),
    {
        match self {
            PathPart::Prefix(_) => 0,
            PathPart::Root => 1,
            PathPart::Current => 2,
            PathPart::Parent => 3,
            PathPart::Normal(_) => 4,
        }
    }

    /// Tells whether two parts are the same.
    pub fn same(&self, other: &PathPart) -> (r: bool)
        ensures
            r == (self.deep_view() == other.deep_view()),
    {
        match (self, other) {
            (PathPart::Prefix(a), PathPart::Prefix(b)) => a.same(b),
            (PathPart::Normal(a), PathPart::Normal(b)) => same_bytes(a, b),
            (PathPart::Root, PathPart::Root) => true,
            (PathPart::Current, PathPart::Current) => true,
            (PathPart::Parent, PathPart::Parent) => true,
            _ => false,
        }
    }

    fn may_precede(&self, other: &PathPart) -> (r: bool)
        ensures
            r == part_le(self.deep_view(), other.deep_view()),
    {
        match (self, other) {
            (PathPart::Prefix(a), PathPart::Prefix(b)) => a.may_precede(b),
            (PathPart::Normal(a), PathPart::Normal(b)) => bytes_not_after(a, b),
            _ => {
                let k = self.kind();
                let l = other.kind();
                k <= l
            },
        }
    }
}

impl Clone for PathPart {
    fn clone(&self) -> (r: PathPart)
        ensures
            r.deep_view() == self.deep_view(),
    {
        match self {
            PathPart::Prefix(prefix) => PathPart::Prefix(prefix.clone()),
            PathPart::Root => PathPart::Root,
            PathPart::Current => PathPart::Current,
            PathPart::Parent => PathPart::Parent,
            PathPart::Normal(name) => PathPart::Normal(name.clone()),
        }
    }
}

impl Clone for RepoPath {
    fn clone(&self) -> (r: RepoPath)
        ensures
            r.deep_view() == self.deep_view(),
    {
        let parts = self.parts.clone();
        assert(parts.deep_view() =~= self.parts.deep_view());
        RepoPath { text: self.text.clone(), parts }
    }
}

impl Ranked for RepoPath {
    open spec fn rank_le(a: RepoPathView, b: RepoPathView) -> bool {
        parts_le(a.parts, b.parts)
    }

    proof fn lemma_rank_order(a: RepoPathView, b: RepoPathView, c: RepoPathView) {
        lemma_parts_order(a.parts, b.parts, c.parts);
    }

    fn may_precede(&self, other: &RepoPath) -> (r: bool) {
        let ghost a = self.parts.deep_view();
        let ghost b = other.parts.deep_view();
        let mut i: usize = 0;
        assert(a.skip(0) =~= a);
        assert(b.skip(0) =~= b);
        while i < self.parts.len()
            invariant
                a == self.parts.deep_view(),
                b == other.parts.deep_view(),
                i <= a.len(),
                i <= b.len(),
                parts_le(a.skip(i as int), b.skip(i as int)) == parts_le(a, b),
            decreases a.len() - i,
        {
            if i >= other.parts.len() {
                return false;
            }
            assert(a.skip(i as int)[0] == self.parts@[i as int].deep_view());
            assert(b.skip(i as int)[0] == other.parts@[i as int].deep_view());
            if !self.parts[i].same(&other.parts[i]) {
                return self.parts[i].may_precede(&other.parts[i]);
            }
            assert(a.skip(i as int).drop_first() =~= a.skip(i + 1));
            assert(b.skip(i as int).drop_first() =~= b.skip(i + 1));
            i += 1;
        }
        true
    }
}

/// The name of the last part of a path, when that part is a name.
pub open spec fn file_name_of(path: RepoPathView) -> Option<Seq<u8>> {
    if path.parts.len() == 0 {
        None
    } else {
        match path.parts.last() {
            PathPartView::Normal(name) => Some(name),
            _ => None,
        }
    }
}

/// The bytes of `.git`.
pub open spec fn git_dir_name() -> Seq<u8> {
    seq![0x2eu8, 0x67u8, 0x69u8, 0x74u8]
}

/// Tells whether a name is `.git`.
pub fn is_git_dir_name(name: &Vec<u8>) -> (r: bool)
    ensures
        r == (name@ == git_dir_name()),
{
    let wanted: Vec<u8> = vec![0x2e, 0x67, 0x69, 0x74];
    assert(wanted@ =~= git_dir_name());
    same_bytes(name, &wanted)
}

impl PartialEq for RepoPath {
    fn eq(&self, other: &RepoPath) -> (r: bool) {
        self.same(other)
    }
}

impl PartialEqSpecImpl for RepoPath {
    open spec fn obeys_eq_spec() -> bool {
        true
    }

    open spec fn eq_spec(&self, other: &RepoPath) -> bool {
        self.deep_view().parts == other.deep_view().parts
    }
}

impl Eq for RepoPath {

}

impl RepoPath {
    /// Tells whether two paths are the same path.
    pub fn same(&self, other: &RepoPath) -> (r: bool)
        ensures
            r == (self.deep_view().parts == other.deep_view().parts),
    {
        let ghost a = self.parts.deep_view();
        let ghost b = other.parts.deep_view();
        if self.parts.len() != other.parts.len() {
            return false;
        }
        let mut i: usize = 0;
        while i < self.parts.len()
            invariant
                a == self.parts.deep_view(),
                b == other.parts.deep_view(),
                a.len() == b.len(),
                i <= a.len(),
                forall|k: int| 0 <= k < i ==> #[trigger] a[k] == b[k],
            decreases a.len() - i,
        {
            assert(a[i as int] == self.parts@[i as int].deep_view());
            assert(b[i as int] == other.parts@[i as int].deep_view());
            if !self.parts[i].same(&other.parts[i]) {
                return false;
            }
            i += 1;
        }
        assert(a =~= b);
        true
    }

    /// The name of the last part of the path, when that part is a name.
    pub fn file_name(&self) -> (r: Option<&Vec<u8>>)
        ensures
            match r {
                Some(name) => file_name_of(self.deep_view()) == Some(name@),
                None => file_name_of(self.deep_view()) is None,
            },
    {
        let n: usize = self.parts.len();
        if n == 0 {
            return None;
        }
        assert(self.deep_view().parts.last() == self.parts@[n - 1].deep_view());
        match &self.parts[n - 1] {
            PathPart::Normal(name) => Some(name),
            _ => None,
        }
    }
}

/// The name a repository goes by: the last name of its path, or `unknown`
/// where there is none that is UTF-8.
pub open spec fn repo_name(path: RepoPathView) -> Seq<char> {
    match file_name_of(path) {
        Some(name) => if valid_utf8(name) {
            decode_utf8(name)
        } else {
            "unknown"@
        },
        None => "unknown"@,
    }
}

/// The name a repository at a path goes by.
pub fn name_of_repo(path: &RepoPath) -> (r: String)
    ensures
        r@ == repo_name(path.deep_view()),
{
    match path.file_name() {
        Some(name) => match text::decode_strict(name) {
            Some(decoded) => decoded,
            None => "unknown".to_owned(),
        },
        None => "unknown".to_owned(),
    }
}

/// A list without the paths that repeat the one kept before them.
pub open spec fn without_repeats(s: Seq<RepoPathView>) -> Seq<RepoPathView>
    decreases s.len(),
{
    if s.len() == 0 {
        s
    } else {
        let kept = without_repeats(s.drop_last());
        if kept.len() > 0 && kept.last().parts == s.last().parts {
            kept
        } else {
            kept.push(s.last())
        }
    }
}

/// Drops the paths that repeat the one before them.
pub fn drop_repeats(paths: Vec<RepoPath>) -> (r: Vec<RepoPath>)
    ensures
        r.deep_view() == without_repeats(paths.deep_view()),
{
    let ghost source = paths.deep_view();
    let mut r: Vec<RepoPath> = Vec::new();
    assert(r.deep_view() =~= without_repeats(source.take(0)));
    for path in it: paths
        invariant
            source == Seq::new(it.seq().len(), |k: int| it.seq()[k].deep_view()),
            r.deep_view() == without_repeats(source.take(it.index())),
    {
        proof {
            let i = it.index();
            assert(source.take(i + 1).drop_last() =~= source.take(i));
            assert(source.take(i + 1).last() == path.deep_view());
        }
        let n: usize = r.len();
        let ghost before = r.deep_view();
        if n > 0 {
            assert(before.last() == r@[n - 1].deep_view());
        }
        if n == 0 || !r[n - 1].same(&path) {
            r.push(path);
            assert(r.deep_view() =~= before.push(path.deep_view()));
        }
    }
    assert(source.take(source.len() as int) =~= source);
    r
}

/// Whether a list holds the path with the given parts.
pub open spec fn lists_path(s: Seq<RepoPathView>, parts: Seq<PathPartView>) -> bool {
    exists|i: int| 0 <= i < s.len() && (#[trigger] s[i]).parts == parts
}

/// Dropping repeats from a list in order leaves one of each path, and keeps
/// the order.
pub proof fn lemma_without_repeats(s: Seq<RepoPathView>)
    requires
        crate::sort::in_order(s, crate::sort::rank::<RepoPath>()),
    ensures
        crate::sort::in_order(without_repeats(s), crate::sort::rank::<RepoPath>()),
        forall|i: int, j: int|
            0 <= i < j < without_repeats(s).len() ==> #[trigger] without_repeats(s)[i].parts
                != #[trigger] without_repeats(s)[j].parts,
        forall|parts: Seq<PathPartView>|
            lists_path(without_repeats(s), parts) == lists_path(s, parts),
        s.len() > 0 ==> without_repeats(s).len() > 0 && without_repeats(s).last().parts
            == s.last().parts,
    decreases s.len(),
{
    let le = crate::sort::rank::<RepoPath>();
    if s.len() > 0 {
        let t = s.drop_last();
        assert forall|i: int, j: int| 0 <= i < j < t.len() implies le(
            #[trigger] t[i],
            #[trigger] t[j],
        ) by {
            assert(le(s[i], s[j]));
        }
        lemma_without_repeats(t);
        let kept = without_repeats(t);
        let r = without_repeats(s);
        let x = s.last();
        if t.len() > 0 {
            assert(le(s[s.len() - 2], s[s.len() - 1]));
            assert(parts_le(kept.last().parts, x.parts));
        }
        assert forall|i: int| 0 <= i < kept.len() implies parts_le(
            (#[trigger] kept[i]).parts,
            x.parts,
        ) by {
            if i < kept.len() - 1 {
                assert(le(kept[i], kept[kept.len() - 1]));
                lemma_parts_order(kept[i].parts, kept.last().parts, x.parts);
            }
        }
        if !(kept.len() > 0 && kept.last().parts == x.parts) {
            assert forall|i: int, j: int| 0 <= i < j < r.len() implies #[trigger] r[i].parts
                != #[trigger] r[j].parts by {
                if j == kept.len() && i < kept.len() - 1 {
                    assert(le(kept[i], kept[kept.len() - 1]));
                    lemma_parts_order(kept[i].parts, kept.last().parts, x.parts);
                    lemma_parts_order(kept.last().parts, x.parts, x.parts);
                }
            }
        }
        assert forall|parts: Seq<PathPartView>| lists_path(r, parts) == lists_path(s, parts) by {
            assert(lists_path(kept, parts) == lists_path(t, parts));
            if lists_path(r, parts) {
                let i = choose|i: int| 0 <= i < r.len() && (#[trigger] r[i]).parts == parts;
                if i < kept.len() {
                    assert(kept[i].parts == parts);
                    let k = choose|k: int| 0 <= k < t.len() && (#[trigger] t[k]).parts == parts;
                    assert(s[k].parts == parts);
                } else {
                    assert(s[s.len() - 1].parts == parts);
                }
            }
            if lists_path(s, parts) {
                let i = choose|i: int| 0 <= i < s.len() && (#[trigger] s[i]).parts == parts;
                if i < t.len() {
                    assert(t[i].parts == parts);
                    let k = choose|k: int|
                        0 <= k < kept.len() && (#[trigger] kept[k]).parts == parts;
                    assert(r[k].parts == parts);
                } else {
                    assert(r[r.len() - 1].parts == parts);
                }
            }
        }
    }
}

}
