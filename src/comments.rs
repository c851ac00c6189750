use vstd::prelude::*;

verus! {

#[derive(Clone, Copy, Debug, PartialEq, Eq, Structural)]
pub enum CommentKind {
    Line,
    Block,
}

/// One source comment: its kind, the byte span it covers and its text.
#[derive(Debug)]
pub struct Comment {
    pub kind: CommentKind,
    pub span_lo: u32,
    pub span_hi: u32,
    pub text: String,
}

impl View for Comment {
    type V = (CommentKind, u32, u32, Seq<char>);

    open spec fn view(&self) -> Self::V {
        (self.kind, self.span_lo, self.span_hi, self.text@)
    }
}

pub open spec fn comments_view(s: Seq<Comment>) -> Seq<(CommentKind, u32, u32, Seq<char>)> {
    s.map_values(|c: Comment| c@)
}

pub open spec fn has_key(s: Seq<(u32, Seq<(CommentKind, u32, u32, Seq<char>)>)>, k: u32) -> bool {
    exists|i: int| 0 <= i < s.len() && s[i].0 == k
}

pub open spec fn key_index(s: Seq<(u32, Seq<(CommentKind, u32, u32, Seq<char>)>)>, k: u32) -> int {
    choose|i: int| 0 <= i < s.len() && s[i].0 == k
}

/// Comments keyed by source position, each position at most once.
#[derive(Debug)]
pub struct CommentsMap {
    entries: Vec<(u32, Vec<Comment>)>,
}

impl View for CommentsMap {
    type V = Seq<(u32, Seq<(CommentKind, u32, u32, Seq<char>)>)>;

    closed spec fn view(&self) -> Self::V {
        self.entries@.map_values(|e: (u32, Vec<Comment>)| (e.0, comments_view(e.1@)))
    }
}

/// A field-by-field copy of `c`.
pub fn copy_comment(c: &Comment) -> (r: Comment)
    ensures
        r@ == c@,
{
    Comment { kind: c.kind, span_lo: c.span_lo, span_hi: c.span_hi, text: c.text.clone() }
}

fn copy_comments(v: &Vec<Comment>) -> (r: Vec<Comment>)
    ensures
        comments_view(r@) == comments_view(v@),
{
    let mut r: Vec<Comment> = Vec::new();
    let mut i: usize = 0;
    while i < v.len()
        invariant
            i <= v.len(),
            r@.len() == i,
            comments_view(r@) == comments_view(v@.take(i as int)),
        decreases v.len() - i,
    {
        let c = copy_comment(&v[i]);
        let ghost r_before = r@;
        r.push(c);
        proof {
            let n = i as int;
            assert forall|j: int| 0 <= j < n + 1 implies #[trigger] comments_view(r@)[j]
                == comments_view(v@.take(n + 1))[j] by {
                if j < n {
                    assert(comments_view(r_before)[j] == comments_view(v@.take(n))[j]);
                    assert(r@[j] == r_before[j]);
                }
            }
            assert(comments_view(r@) =~= comments_view(v@.take(n + 1)));
        }
        i = i + 1;
    }
    assert(v@.take(v.len() as int) =~= v@);
    r
}

impl CommentsMap {
    pub closed spec fn wf(&self) -> bool {
        forall|i: int, j: int|
            0 <= i < j < self.entries@.len() ==> self.entries@[i].0 != self.entries@[j].0
    }

    pub fn new() -> (r: Self)
        ensures
            r.wf(),
            r@.len() == 0,
    {
        CommentsMap { entries: Vec::new() }
    }

    pub fn len(&self) -> (r: usize)
        ensures
            r == self@.len(),
    {
        self.entries.len()
    }

    pub fn is_empty(&self) -> (r: bool)
        ensures
            r == (self@.len() == 0),
    {
        self.entries.len() == 0
    }

    /// Sets the comments at `pos`, replacing any that were there.
    pub fn insert(&mut self, pos: u32, comments: Vec<Comment>)
        requires
            old(self).wf(),
        ensures
            final(self).wf(),
            has_key(old(self)@, pos) ==> final(self)@ == old(self)@.update(
                key_index(old(self)@, pos),
                (pos, comments_view(comments@)),
            ),
            !has_key(old(self)@, pos) ==> final(self)@ == old(self)@.push(
                (pos, comments_view(comments@)),
            ),
    {
        let ghost cv = comments_view(comments@);
        let mut i: usize = 0;
        while i < self.entries.len()
            invariant
                i <= self.entries.len(),
                self.wf(),
                self@ == old(self)@,
                cv == comments_view(comments@),
                forall|j: int| 0 <= j < i ==> self.entries@[j].0 != pos,
            decreases self.entries.len() - i,
        {
            if self.entries[i].0 == pos {
                assert(self@[i as int].0 == pos);
                assert(has_key(self@, pos));
                assert(key_index(self@, pos) == i) by {
                    let k = key_index(self@, pos);
                    assert(0 <= k < self@.len() && self@[k].0 == pos);
                    assert(self.entries@[k].0 == pos);
                    if k < i {
                        assert(self.entries@[k].0 != self.entries@[i as int].0);
                    } else if k > i {
                        assert(self.entries@[i as int].0 != self.entries@[k].0);
                    }
                }
                let ghost before = self@;
                let ghost entries_before = self.entries@;
                let ghost cm = comments;
                self.entries.set(i, (pos, comments));
                proof {
                    assert(entries_before.len() == before.len());
                    assert forall|j: int| 0 <= j < before.len() implies #[trigger] self@[j]
                        == before.update(i as int, (pos, cv))[j] by {
                        if j != i {
                            assert(self.entries@[j] == entries_before[j]);
                        } else {
                            assert(self.entries@[j] == (pos, cm));
                            assert(comments_view(cm@) == cv);
                        }
                    }
                    assert(self@ =~= before.update(i as int, (pos, cv)));
                }
                return;
            }
            i = i + 1;
        }
        let ghost before = self@;
        assert(!has_key(before, pos)) by {
            if has_key(before, pos) {
                let k = choose|k: int| 0 <= k < before.len() && before[k].0 == pos;
                assert(self.entries@[k].0 == pos);
            }
        }
        self.entries.push((pos, comments));
        assert(self@ =~= before.push((pos, cv)));
    }

    /// A copy of this map: every position with a copy of its comments.
    pub fn copy(&self) -> (r: Self)
        requires
            self.wf(),
        ensures
            r.wf(),
            r@ == self@,
    {
        let mut entries: Vec<(u32, Vec<Comment>)> = Vec::new();
        let mut i: usize = 0;
        while i < self.entries.len()
            invariant
                i <= self.entries.len(),
                self.wf(),
                entries@.len() == i,
                forall|j: int| 0 <= j < i ==> entries@[j].0 == #[trigger] self.entries@[j].0,
                entries@.map_values(|e: (u32, Vec<Comment>)| (e.0, comments_view(e.1@)))
                    == self@.take(i as int),
            decreases self.entries.len() - i,
        {
            let pos = self.entries[i].0;
            let copied = copy_comments(&self.entries[i].1);
            entries.push((pos, copied));
            i = i + 1;
            assert(entries@.map_values(|e: (u32, Vec<Comment>)| (e.0, comments_view(e.1@)))
                =~= self@.take(i as int));
        }
        assert(self@.take(self.entries.len() as int) =~= self@);
        let r = CommentsMap { entries };
        assert forall|a: int, b: int| 0 <= a < b < r.entries@.len() implies r.entries@[a].0
            != r.entries@[b].0 by {
            assert(r.entries@[a].0 == self.entries@[a].0);
            assert(r.entries@[b].0 == self.entries@[b].0);
        }
        r
    }
}

/// Comments in the form handed to a plugin: a fresh copy owned by one
/// transform call, leading and trailing apart.
#[derive(Debug)]
pub struct SingleThreadedComments {
    pub leading: CommentsMap,
    pub trailing: CommentsMap,
}

/// Comment access is given to plugins only where the file has both leading
/// and trailing comments.
pub open spec fn comments_enabled(leading: Seq<(u32, Seq<(CommentKind, u32, u32, Seq<char>)>)>, trailing: Seq<(u32, Seq<(CommentKind, u32, u32, Seq<char>)>)>) -> bool {
    leading.len() > 0 && trailing.len() > 0
}

pub fn should_enable_comments_proxy(leading: &CommentsMap, trailing: &CommentsMap) -> (r: bool)
    ensures
        r == comments_enabled(leading@, trailing@),
{
    !leading.is_empty() && !trailing.is_empty()
}

/// The host's comments copied for a plugin run, or `None` where comment
/// access is not enabled.
pub fn bridge_comments(leading: &CommentsMap, trailing: &CommentsMap) -> (r: Option<
    SingleThreadedComments,
>)
    requires
        leading.wf(),
        trailing.wf(),
    ensures
        r is Some <==> comments_enabled(leading@, trailing@),
        r matches Some(c) ==> c.leading.wf() && c.trailing.wf() && c.leading@ == leading@
            && c.trailing@ == trailing@,
{
    if should_enable_comments_proxy(leading, trailing) {
        Some(SingleThreadedComments { leading: leading.copy(), trailing: trailing.copy() })
    } else {
        None
    }
}

} // verus!
