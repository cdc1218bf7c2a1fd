//! A cursor over the segments of a module path of the form `module_a::module_b::module_c`.

use vstd::prelude::*;

verus! {

/// What a cursor holds: its segments and the index of the current one.
pub struct ModulePathView {
    pub segments: Seq<Seq<char>>,
    pub position: nat,
}

/// The segments of a module path with a position into them. The position is always a
/// valid index, or the length of the path once the path is exhausted.
#[derive(Clone, PartialEq, Debug, Default)]
pub struct ModulePath {
    path: Vec<String>,
    position: usize,
}

/// The characters of each string of a sequence.
pub open spec fn strings_view(v: Seq<String>) -> Seq<Seq<char>> {
    v.map_values(|s: String| s@)
}

impl View for ModulePath {
    type V = ModulePathView;

    closed spec fn view(&self) -> ModulePathView {
        ModulePathView { segments: strings_view(self.path@), position: self.position as nat }
    }
}

/// The segment at the current position, if the path is not exhausted.
pub open spec fn current_spec(c: ModulePathView) -> Option<Seq<char>> {
    if c.position < c.segments.len() {
        Some(c.segments[c.position as int])
    } else {
        None
    }
}

/// The cursor moved one segment on, staying put once the path is exhausted.
pub open spec fn advance_spec(c: ModulePathView) -> ModulePathView {
    ModulePathView {
        segments: c.segments,
        position: if c.position < c.segments.len() { c.position + 1 } else { c.position },
    }
}

impl ModulePath {
    /// The position never passes the end of the path.
    pub open spec fn wf(&self) -> bool {
        self@.position <= self@.segments.len()
    }

    /// Creates a cursor at the first segment of `path`.
    pub fn new(path: Vec<String>) -> (r: ModulePath)
        ensures
            r@ == (ModulePathView { segments: strings_view(path@), position: 0 }),
            r.wf(),
    {
        ModulePath { path, position: 0 }
    }

    /// Returns the segment at the current position, or `None` once the path is exhausted.
    pub fn get_current_module(&self) -> (r: Option<String>)
        requires
            self.wf(),
        ensures
            r matches Some(s) ==> current_spec(self@) == Some(s@),
            r is None ==> current_spec(self@) is None,
    {
        if self.position < self.path.len() {
            Some(self.path[self.position].clone())
        } else {
            None
        }
    }

    /// Moves to the next segment and returns it, or `None` once the path is exhausted.
    /// An exhausted cursor stays where it is.
    pub fn next(&mut self) -> (r: Option<String>)
        requires
            old(self).wf(),
        ensures
            final(self)@ == advance_spec(old(self)@),
            final(self).wf(),
            r matches Some(s) ==> current_spec(final(self)@) == Some(s@),
            r is None ==> current_spec(final(self)@) is None,
    {
        if self.position < self.path.len() {
            self.position = self.position + 1;
        }
        self.get_current_module()
    }

    /// An independent cursor with the same segments and position.
    pub(crate) fn duplicate(&self) -> (r: ModulePath)
        ensures
            r@ == self@,
    {
        let path = self.path.clone();
        assert(path@ =~= self.path@);
        ModulePath { path, position: self.position }
    }

    /// Returns a new cursor whose segment at the current position is replaced by
    /// `overwrite_value`. The receiver is not affected.
    pub fn clone_and_overwrite(&self, overwrite_value: String) -> (r: ModulePath)
        requires
            self.wf(),
            self@.position < self@.segments.len(),
        ensures
            r@ == overwrite_spec(self@, overwrite_value@),
            r.wf(),
    {
        let mut cloned_module_path = self.duplicate();
        cloned_module_path.path.set(self.position, overwrite_value);
        assert(cloned_module_path@.segments =~= overwrite_spec(self@, overwrite_value@).segments);
        cloned_module_path
    }

    /// Returns a new cursor with `insert_value` inserted before the current position, so
    /// that it becomes the current segment. The receiver is not affected.
    pub fn clone_and_insert(&self, insert_value: String) -> (r: ModulePath)
        requires
            self.wf(),
        ensures
            r@ == insert_spec(self@, insert_value@),
            r.wf(),
    {
        let mut cloned_module_path = self.duplicate();
        cloned_module_path.path.insert(self.position, insert_value);
        assert(cloned_module_path@.segments =~= insert_spec(self@, insert_value@).segments);
        cloned_module_path
    }

    /// Returns the current position.
    pub fn get_position(&self) -> (r: usize)
        ensures
            r == self@.position,
    {
        self.position
    }

    /// Renders the segments from the current position onward, joined by `::`.
    /// Segments already consumed are left out.
    pub fn to_string(&self) -> (r: String)
        requires
            self.wf(),
        ensures
            r@ == join_segments(self@.segments.subrange(self@.position as int, self@.segments.len() as int)),
    {
        let mut out = String::new();
        let mut i: usize = self.position;
        while i < self.path.len()
            invariant
                self.position <= i <= self.path@.len(),
                out@ == join_segments(
                    strings_view(self.path@).subrange(self.position as int, i as int),
                ),
            decreases self.path@.len() - i,
        {
            let ghost done = strings_view(self.path@).subrange(self.position as int, i as int);
            let ghost more = strings_view(self.path@).subrange(self.position as int, i + 1);
            if i > self.position {
                out.append("::");
            }
            out.append(self.path[i].as_str());
            proof {
                assert(more.drop_last() =~= done);
                reveal_strlit("::");
            }
            i = i + 1;
        }
        proof {
            assert(strings_view(self.path@).subrange(self.position as int, i as int) =~= self@.segments.subrange(
                self@.position as int,
                self@.segments.len() as int,
            ));
        }
        out
    }
}

/// The cursor with the segment at its position replaced by `value`.
pub open spec fn overwrite_spec(c: ModulePathView, value: Seq<char>) -> ModulePathView {
    ModulePathView { segments: c.segments.update(c.position as int, value), position: c.position }
}

/// The cursor with `value` inserted before its position, which now points at `value`.
pub open spec fn insert_spec(c: ModulePathView, value: Seq<char>) -> ModulePathView {
    ModulePathView { segments: c.segments.insert(c.position as int, value), position: c.position }
}

/// The segments joined by `::`.
pub open spec fn join_segments(segs: Seq<Seq<char>>) -> Seq<char>
    decreases segs.len(),
{
    if segs.len() == 0 {
        Seq::empty()
    } else if segs.len() == 1 {
        segs[0]
    } else {
        join_segments(segs.drop_last()) + seq![':', ':'] + segs.last()
    }
}

/// The cursor advanced `n` times.
pub open spec fn advance_n(c: ModulePathView, n: nat) -> ModulePathView
    decreases n,
{
    if n == 0 {
        c
    } else {
        advance_spec(advance_n(c, (n - 1) as nat))
    }
}

/// A copy made with an overwritten or inserted segment starts at the position of the
/// cursor it was made from, on the new segment. Advancing the copy moves it one segment
/// on while that cursor, a value of its own, keeps its position; advancing that cursor
/// moves it alone. After an insertion, the copy's next segment is that cursor's current
/// one.
pub proof fn lemma_copies_are_independent(c: ModulePathView, value: Seq<char>)
    requires
        c.position < c.segments.len(),
    ensures
        overwrite_spec(c, value).position == c.position,
        insert_spec(c, value).position == c.position,
        advance_spec(overwrite_spec(c, value)).position == c.position + 1,
        advance_spec(insert_spec(c, value)).position == c.position + 1,
        advance_spec(c).position == overwrite_spec(c, value).position + 1,
        current_spec(overwrite_spec(c, value)) == Some(value),
        current_spec(insert_spec(c, value)) == Some(value),
        current_spec(advance_spec(insert_spec(c, value))) == current_spec(c),
{
}

/// A well-formed cursor advanced as many times as its path has segments is exhausted,
/// and advancing it further keeps it exhausted.
pub proof fn lemma_advance_terminates(c: ModulePathView, extra: nat)
    requires
        c.position <= c.segments.len(),
    ensures
        current_spec(advance_n(c, c.segments.len())) is None,
        current_spec(advance_n(c, c.segments.len() + extra)) is None,
        advance_n(c, c.segments.len() + extra) == advance_n(c, c.segments.len()),
    decreases extra,
{
    lemma_advance_n_position(c, c.segments.len());
    if extra > 0 {
        lemma_advance_terminates(c, (extra - 1) as nat);
    }
}

proof fn lemma_advance_n_position(c: ModulePathView, n: nat)
    requires
        c.position <= c.segments.len(),
    ensures
        advance_n(c, n).segments == c.segments,
        advance_n(c, n).position == if c.position + n <= c.segments.len() {
            c.position + n
        } else {
            c.segments.len()
        },
    decreases n,
{
    if n > 0 {
        lemma_advance_n_position(c, (n - 1) as nat);
    }
}

} // verus!
