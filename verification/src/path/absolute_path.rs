//! Absolute paths, as the chain of names from the root, and the bytes they
//! spell on a Unix system.

use core::cmp::Ordering;
use vstd::prelude::*;

verus! {

/// The path separator `/`.
pub const SLASH: u8 = 47;

/// The path of the root directory: `/`.
pub open spec fn root_path() -> Seq<u8> {
    seq![SLASH]
}

/// `base` extended with `name` as a Unix `PathBuf::push` extends it: a name
/// that starts with `/` replaces the path; otherwise a separator is put in
/// between unless `base` is empty or already ends with one.
pub open spec fn spec_path_push(base: Seq<u8>, name: Seq<u8>) -> Seq<u8> {
    if name.len() > 0 && name[0] == SLASH {
        name
    } else if base.len() > 0 && base.last() != SLASH {
        base.push(SLASH) + name
    } else {
        base + name
    }
}

/// A new buffer holding the bytes of `s`.
pub fn copy_bytes(s: &[u8]) -> (r: Vec<u8>)
    ensures
        r@ == s@,
{
    let mut r = Vec::new();
    r.extend_from_slice(s);
    assert(r@ =~= s@);
    r
}

/// Extends the path in `buf` with `name` (see [`spec_path_push`]).
pub fn path_push(buf: &mut Vec<u8>, name: &[u8])
    ensures
        final(buf)@ == spec_path_push(old(buf)@, name@),
{
    if name.len() > 0 && name[0] == SLASH {
        buf.clear();
        buf.extend_from_slice(name);
        assert(buf@ =~= name@);
    } else {
        if buf.len() > 0 && buf[buf.len() - 1] != SLASH {
            buf.push(SLASH);
        }
        let ghost mid = buf@;
        buf.extend_from_slice(name);
        assert(buf@ =~= mid + name@);
    }
}

/// The bytes of the path that runs from the root through `names`.
pub open spec fn spec_absolute_path(names: Seq<Seq<u8>>) -> Seq<u8>
    decreases names.len(),
{
    if names.len() == 0 {
        root_path()
    } else {
        spec_path_push(spec_absolute_path(names.drop_last()), names.last())
    }
}


/// The name `.`, which a path's components leave out.
pub open spec fn cur_dir() -> Seq<u8> {
    seq![46u8]
}

/// `done` with the segment `seg` added, unless it is empty or `.`.
pub open spec fn keep_segment(done: Seq<Seq<u8>>, seg: Seq<u8>) -> Seq<Seq<u8>> {
    if seg.len() > 0 && seg != cur_dir() {
        done.push(seg)
    } else {
        done
    }
}

/// The first `i` bytes of `p` read as a path: the components finished so far
/// and the segment being read.
pub open spec fn scan_components(p: Seq<u8>, i: nat) -> (Seq<Seq<u8>>, Seq<u8>)
    decreases i,
{
    if i == 0 {
        (Seq::empty(), Seq::empty())
    } else {
        let (done, seg) = scan_components(p, (i - 1) as nat);
        if p[i - 1] == SLASH {
            (keep_segment(done, seg), Seq::empty())
        } else {
            (done, seg.push(p[i - 1]))
        }
    }
}

/// The named components of the path `p`: the segments between separators,
/// without empty ones and `.` (as `Path::components` gives them after the
/// root).
pub open spec fn path_components(p: Seq<u8>) -> Seq<Seq<u8>> {
    let (done, seg) = scan_components(p, p.len());
    keep_segment(done, seg)
}

/// The named components of the path `p`.
pub fn components(p: &[u8]) -> (r: Vec<Vec<u8>>)
    ensures
        r@.map_values(|c: Vec<u8>| c@) == path_components(p@),
{
    let mut done: Vec<Vec<u8>> = Vec::new();
    let mut seg: Vec<u8> = Vec::new();
    let mut i: usize = 0;
    while i < p.len()
        invariant
            i <= p@.len(),
            (done@.map_values(|c: Vec<u8>| c@), seg@) == scan_components(p@, i as nat),
        decreases p@.len() - i,
    {
        let ghost before = done@.map_values(|c: Vec<u8>| c@);
        if p[i] == SLASH {
            let finished = seg;
            seg = Vec::new();
            if finished.len() > 0 && !(finished.len() == 1 && finished[0] == 46) {
                assert(finished@ != cur_dir()) by {
                    if finished@ == cur_dir() {
                        assert(finished@.len() == 1 && finished@[0] == 46);
                    }
                }
                done.push(finished);
                assert(done@.map_values(|c: Vec<u8>| c@) =~= before.push(finished@));
            } else {
                assert(finished@.len() == 0 || finished@ =~= cur_dir());
            }
        } else {
            seg.push(p[i]);
        }
        i = i + 1;
    }
    let ghost before = done@.map_values(|c: Vec<u8>| c@);
    if seg.len() > 0 && !(seg.len() == 1 && seg[0] == 46) {
        assert(seg@ != cur_dir()) by {
            if seg@ == cur_dir() {
                assert(seg@.len() == 1 && seg@[0] == 46);
            }
        }
        done.push(seg);
        assert(done@.map_values(|c: Vec<u8>| c@) =~= before.push(done@.last()@));
    } else {
        assert(seg@.len() == 0 || seg@ =~= cur_dir());
    }
    assert(p@.len() as nat == i as nat);
    done
}

/// Whether `a` and `b` hold the same bytes.
pub fn bytes_eq(a: &[u8], b: &[u8]) -> (r: bool)
    ensures
        r == (a@ == b@),
{
    if a.len() != b.len() {
        return false;
    }
    let mut i: usize = 0;
    while i < a.len()
        invariant
            a@.len() == b@.len(),
            i <= a@.len(),
            forall|j: int| 0 <= j < i ==> a@[j] == b@[j],
        decreases a@.len() - i,
    {
        if a[i] != b[i] {
            return false;
        }
        i = i + 1;
    }
    assert(a@ =~= b@);
    true
}

/// Whether the paths `a` and `b` have the same named components.
pub fn same_components(a: &[u8], b: &[u8]) -> (r: bool)
    ensures
        r == (path_components(a@) == path_components(b@)),
{
    let ca = components(a);
    let cb = components(b);
    let ghost va = ca@.map_values(|c: Vec<u8>| c@);
    let ghost vb = cb@.map_values(|c: Vec<u8>| c@);
    if ca.len() != cb.len() {
        assert(va.len() != vb.len());
        return false;
    }
    let mut i: usize = 0;
    while i < ca.len()
        invariant
            ca@.len() == cb@.len(),
            va == ca@.map_values(|c: Vec<u8>| c@),
            vb == cb@.map_values(|c: Vec<u8>| c@),
            va == path_components(a@),
            vb == path_components(b@),
            i <= ca@.len(),
            forall|j: int| 0 <= j < i ==> va[j] == vb[j],
        decreases ca@.len() - i,
    {
        if !bytes_eq(ca[i].as_slice(), cb[i].as_slice()) {
            assert(va[i as int] != vb[i as int]);
            return false;
        }
        i = i + 1;
    }
    assert(va =~= vb);
    true
}



/// What follows the first `i` bytes of `s`.
pub open spec fn bytes_from(s: Seq<u8>, i: usize) -> Seq<u8> {
    s.skip(i as int)
}

/// What follows the first `i` components of `s`.
pub open spec fn components_from(s: Seq<Seq<u8>>, i: usize) -> Seq<Seq<u8>> {
    s.skip(i as int)
}

/// Dropping one more byte drops the first of what was left.
proof fn lemma_bytes_from_next(s: Seq<u8>, i: usize)
    requires
        i < s.len(),
    ensures
        bytes_from(s, i).drop_first() == s.skip(i as int + 1),
        bytes_from(s, i)[0] == s[i as int],
        bytes_from(s, i).len() == s.len() - i,
{
    assert(bytes_from(s, i).drop_first() =~= s.skip(i as int + 1));
}

/// Dropping one more component drops the first of what was left.
proof fn lemma_components_from_next(v: Seq<Vec<u8>>, s: Seq<Seq<u8>>, i: usize)
    requires
        s == v.map_values(|c: Vec<u8>| c@),
        i < s.len(),
    ensures
        components_from(s, i).drop_first() == s.skip(i as int + 1),
        components_from(s, i)[0] == v[i as int]@,
{
    assert(components_from(s, i).drop_first() =~= s.skip(i as int + 1));
}

/// The name `..`, which a path's components order before every other name.
pub open spec fn parent_dir() -> Seq<u8> {
    seq![46u8, 46u8]
}

/// `a` against `b` in byte order, a proper prefix first.
pub open spec fn bytes_order(a: Seq<u8>, b: Seq<u8>) -> Ordering
    decreases a.len(),
{
    if a.len() == 0 {
        if b.len() == 0 {
            Ordering::Equal
        } else {
            Ordering::Less
        }
    } else if b.len() == 0 {
        Ordering::Greater
    } else if a[0] < b[0] {
        Ordering::Less
    } else if a[0] > b[0] {
        Ordering::Greater
    } else {
        bytes_order(a.drop_first(), b.drop_first())
    }
}

/// One component against another: `..` before any other name, other names in
/// byte order.
pub open spec fn component_order(a: Seq<u8>, b: Seq<u8>) -> Ordering {
    if a == parent_dir() {
        if b == parent_dir() {
            Ordering::Equal
        } else {
            Ordering::Less
        }
    } else if b == parent_dir() {
        Ordering::Greater
    } else {
        bytes_order(a, b)
    }
}

/// Components against components, the first that differ deciding, a proper
/// prefix first.
pub open spec fn components_order(a: Seq<Seq<u8>>, b: Seq<Seq<u8>>) -> Ordering
    decreases a.len(),
{
    if a.len() == 0 {
        if b.len() == 0 {
            Ordering::Equal
        } else {
            Ordering::Less
        }
    } else if b.len() == 0 {
        Ordering::Greater
    } else if component_order(a[0], b[0]) != Ordering::Equal {
        component_order(a[0], b[0])
    } else {
        components_order(a.drop_first(), b.drop_first())
    }
}

/// `a` against `b` in byte order.
pub fn order_bytes(a: &[u8], b: &[u8]) -> (r: Ordering)
    ensures
        r == bytes_order(a@, b@),
{
    let mut i: usize = 0;
    assert(bytes_from(a@, i) =~= a@);
    assert(bytes_from(b@, i) =~= b@);
    while i < a.len() && i < b.len()
        invariant
            i <= a@.len(),
            i <= b@.len(),
            bytes_order(a@, b@) == bytes_order(bytes_from(a@, i), bytes_from(b@, i)),
        decreases a@.len() - i,
    {
        proof {
            lemma_bytes_from_next(a@, i);
            lemma_bytes_from_next(b@, i);
        }
        if a[i] < b[i] {
            return Ordering::Less;
        }
        if a[i] > b[i] {
            return Ordering::Greater;
        }
        i = i + 1;
    }
    if i < a.len() {
        Ordering::Greater
    } else if i < b.len() {
        Ordering::Less
    } else {
        Ordering::Equal
    }
}

/// Whether `c` is the name `..`.
fn is_parent_dir(c: &[u8]) -> (r: bool)
    ensures
        r == (c@ == parent_dir()),
{
    let r = c.len() == 2 && c[0] == 46 && c[1] == 46;
    assert(r ==> c@ =~= parent_dir());
    assert(c@ == parent_dir() ==> c@.len() == 2 && c@[0] == 46 && c@[1] == 46);
    r
}

/// One component against another.
pub fn order_component(a: &[u8], b: &[u8]) -> (r: Ordering)
    ensures
        r == component_order(a@, b@),
{
    let pa = is_parent_dir(a);
    let pb = is_parent_dir(b);
    if pa {
        if pb {
            Ordering::Equal
        } else {
            Ordering::Less
        }
    } else if pb {
        Ordering::Greater
    } else {
        order_bytes(a, b)
    }
}

/// The path `a` against the path `b`, component by component.
pub fn order_paths(a: &[u8], b: &[u8]) -> (r: Ordering)
    ensures
        r == components_order(path_components(a@), path_components(b@)),
{
    let ca = components(a);
    let cb = components(b);
    let ghost va = ca@.map_values(|c: Vec<u8>| c@);
    let ghost vb = cb@.map_values(|c: Vec<u8>| c@);
    let mut i: usize = 0;
    assert(components_from(va, i) =~= va);
    assert(components_from(vb, i) =~= vb);
    while i < ca.len() && i < cb.len()
        invariant
            va == ca@.map_values(|c: Vec<u8>| c@),
            vb == cb@.map_values(|c: Vec<u8>| c@),
            va == path_components(a@),
            vb == path_components(b@),
            i <= ca@.len(),
            i <= cb@.len(),
            components_order(va, vb) == components_order(components_from(va, i), components_from(vb, i)),
        decreases ca@.len() - i,
    {
        proof {
            lemma_components_from_next(ca@, va, i);
            lemma_components_from_next(cb@, vb, i);
        }
        let o = order_component(ca[i].as_slice(), cb[i].as_slice());
        match o {
            Ordering::Equal => {},
            _ => return o,
        }
        i = i + 1;
    }
    if i < ca.len() {
        Ordering::Greater
    } else if i < cb.len() {
        Ordering::Less
    } else {
        Ordering::Equal
    }
}

/// A path as the root or a name below another path.
#[derive(Debug)]
pub enum InnerPath {
    /// the root directory.
    Root,
    /// the entry `name` of the directory `parent`.
    Child { parent: Box<InnerPath>, name: Vec<u8> },
}

impl InnerPath {
    /// The names from the root down to this path.
    pub open spec fn names(self) -> Seq<Seq<u8>>
        decreases self,
    {
        match self {
            InnerPath::Root => Seq::empty(),
            InnerPath::Child { parent, name } => (*parent).names().push(name@),
        }
    }

    /// The same path, built anew.
    pub fn duplicate(&self) -> (r: InnerPath)
        ensures
            r.names() == self.names(),
        decreases self,
    {
        match self {
            InnerPath::Root => InnerPath::Root,
            InnerPath::Child { parent, name } => {
                let parent = (**parent).duplicate();
                InnerPath::Child { parent: Box::new(parent), name: copy_bytes(name.as_slice()) }
            },
        }
    }

    /// The bytes this path spells.
    pub fn absolute_path(&self) -> (r: Vec<u8>)
        ensures
            r@ == spec_absolute_path(self.names()),
        decreases self,
    {
        match self {
            InnerPath::Root => {
                let mut r = Vec::new();
                r.push(SLASH);
                assert(r@ =~= root_path());
                r
            },
            InnerPath::Child { parent, name } => {
                let mut r = (**parent).absolute_path();
                path_push(&mut r, name.as_slice());
                assert(self.names().drop_last() =~= (*parent).names());
                r
            },
        }
    }
}

/// An absolute path, kept as the names that lead to it from the root.
#[derive(Debug)]
pub struct AbsolutePath(InnerPath);

impl View for AbsolutePath {
    type V = Seq<Seq<u8>>;

    /// The names from the root down to this path.
    closed spec fn view(&self) -> Seq<Seq<u8>> {
        self.0.names()
    }
}

impl AbsolutePath {
    /// The root directory `/`.
    pub fn root() -> (r: Self)
        ensures
            r@ == Seq::<Seq<u8>>::empty(),
    {
        AbsolutePath(InnerPath::Root)
    }

    /// The entry `name` of the directory `parent`.
    pub fn new(parent: &AbsolutePath, name: &[u8]) -> (r: Self)
        ensures
            r@ == parent@.push(name@),
    {
        AbsolutePath(
            InnerPath::Child { parent: Box::new(parent.0.duplicate()), name: copy_bytes(name) },
        )
    }

    /// The bytes this path spells, such as `/a/b`.
    pub fn absolute_path_buf(&self) -> (r: Vec<u8>)
        ensures
            r@ == spec_absolute_path(self@),
    {
        self.0.absolute_path()
    }

    /// Nothing for the root; for any other path, the same path again.
    pub fn parent(&self) -> (r: Option<AbsolutePath>)
        ensures
            r is None <==> self@.len() == 0,
            r matches Some(p) ==> p@ == self@,
    {
        match &self.0 {
            InnerPath::Root => None,
            InnerPath::Child { .. } => Some(AbsolutePath(self.0.duplicate())),
        }
    }
}


impl AbsolutePath {
    /// Whether the two paths spell the same components (as `Path` compares
    /// them: separators doubled or trailing, and `.` segments, do not count).
    pub open spec fn same_path(self, other: AbsolutePath) -> bool {
        path_components(spec_absolute_path(self@)) == path_components(spec_absolute_path(other@))
    }

    /// The two paths' components in order, compared one by one.
    pub open spec fn path_order(self, other: AbsolutePath) -> Ordering {
        components_order(
            path_components(spec_absolute_path(self@)),
            path_components(spec_absolute_path(other@)),
        )
    }
}

impl PartialEq for AbsolutePath {
    fn eq(&self, other: &Self) -> (r: bool) {
        let a = self.absolute_path_buf();
        let b = other.absolute_path_buf();
        same_components(a.as_slice(), b.as_slice())
    }
}

impl vstd::std_specs::cmp::PartialEqSpecImpl for AbsolutePath {
    open spec fn obeys_eq_spec() -> bool {
        true
    }

    open spec fn eq_spec(&self, other: &AbsolutePath) -> bool {
        self.same_path(*other)
    }
}

impl Eq for AbsolutePath {}


impl PartialOrd for AbsolutePath {
    fn partial_cmp(&self, other: &Self) -> (r: Option<Ordering>) {
        let a = self.absolute_path_buf();
        let b = other.absolute_path_buf();
        Some(order_paths(a.as_slice(), b.as_slice()))
    }
}

impl vstd::std_specs::cmp::PartialOrdSpecImpl for AbsolutePath {
    open spec fn obeys_partial_cmp_spec() -> bool {
        true
    }

    open spec fn partial_cmp_spec(&self, other: &AbsolutePath) -> Option<Ordering> {
        Some(self.path_order(*other))
    }
}


/// Byte order is equality where it says `Equal`, and reverses when the two
/// sides are swapped.
proof fn lemma_bytes_order(a: Seq<u8>, b: Seq<u8>)
    ensures
        (bytes_order(a, b) == Ordering::Equal) <==> a == b,
        (bytes_order(a, b) == Ordering::Less) <==> (bytes_order(b, a) == Ordering::Greater),
    decreases a.len(),
{
    if a.len() == 0 || b.len() == 0 {
        if a.len() == 0 && b.len() == 0 {
            assert(a =~= b);
        }
    } else if a[0] == b[0] {
        lemma_bytes_order(a.drop_first(), b.drop_first());
        if a.drop_first() == b.drop_first() {
            assert(a =~= seq![a[0]] + a.drop_first());
            assert(b =~= seq![b[0]] + b.drop_first());
        }
        if a == b {
            assert(a.drop_first() =~= b.drop_first());
        }
    } else {
        assert(a != b);
    }
}

/// Component order is equality where it says `Equal`, and reverses when the
/// two sides are swapped.
proof fn lemma_component_order(a: Seq<u8>, b: Seq<u8>)
    ensures
        (component_order(a, b) == Ordering::Equal) <==> a == b,
        (component_order(a, b) == Ordering::Less) <==> (component_order(b, a) == Ordering::Greater),
{
    lemma_bytes_order(a, b);
    lemma_bytes_order(b, a);
}

/// Component sequence order is equality where it says `Equal`, and reverses
/// when the two sides are swapped.
proof fn lemma_components_order(a: Seq<Seq<u8>>, b: Seq<Seq<u8>>)
    ensures
        (components_order(a, b) == Ordering::Equal) <==> a == b,
        (components_order(a, b) == Ordering::Less) <==> (components_order(b, a) == Ordering::Greater),
    decreases a.len(),
{
    if a.len() == 0 || b.len() == 0 {
        if a.len() == 0 && b.len() == 0 {
            assert(a =~= b);
        }
    } else {
        lemma_component_order(a[0], b[0]);
        lemma_component_order(b[0], a[0]);
        if a[0] == b[0] {
            lemma_components_order(a.drop_first(), b.drop_first());
            if a.drop_first() == b.drop_first() {
                assert(a =~= seq![a[0]] + a.drop_first());
                assert(b =~= seq![b[0]] + b.drop_first());
            }
            if a == b {
                assert(a.drop_first() =~= b.drop_first());
            }
        } else {
            assert(a != b);
        }
    }
}

/// Comparing two paths gives `Equal` exactly when `==` holds of them, and
/// swapping them swaps `Less` and `Greater`.
pub proof fn lemma_path_order_agrees_with_eq(a: AbsolutePath, b: AbsolutePath)
    ensures
        (a.path_order(b) == Ordering::Equal) <==> a.same_path(b),
        (a.path_order(b) == Ordering::Less) <==> (b.path_order(a) == Ordering::Greater),
{
    lemma_components_order(
        path_components(spec_absolute_path(a@)),
        path_components(spec_absolute_path(b@)),
    );
}


/// Feeds `components` to `state` with `Hash::hash` for `Vec`. Nothing is
/// stated of the hasher's state afterwards: it depends on the hasher.
#[verifier::external_body]
fn hash_components<H: core::hash::Hasher>(components: &Vec<Vec<u8>>, state: &mut H) {
    core::hash::Hash::hash(components, state)
}

/// Paths hash by their components, so paths that are `==` hash alike.
impl core::hash::Hash for AbsolutePath {
    fn hash<H: core::hash::Hasher>(&self, state: &mut H) {
        let path = self.absolute_path_buf();
        let parts = components(path.as_slice());
        hash_components(&parts, state);
    }
}

} // verus!
