use vstd::prelude::*;

verus! {

/// From `start` on, a character takes `width` columns (`None`: it cannot be
/// printed), up to the start of the next run.
#[derive(Clone, Copy, Debug)]
pub struct WidthRun {
    pub start: char,
    pub width: Option<u8>,
}

/// The display width of every character, held as runs of characters that
/// follow one another.
///
/// A table is filled in the order of the characters: `uniform` gives every
/// character one width, and each `with_run` changes the width from a later
/// character onwards.
#[derive(Debug)]
pub struct CharWidths {
    runs: Vec<WidthRun>,
    frontier: char,
}

/// The width that the last of `runs` starting at or before `c` gives.
pub open spec fn width_in(runs: Seq<WidthRun>, c: char) -> Option<u8>
    decreases runs.len(),
{
    if runs.len() == 0 {
        None
    } else if runs.last().start as u32 <= c as u32 {
        runs.last().width
    } else {
        width_in(runs.drop_last(), c)
    }
}

/// The runs start at the first character and are in strictly rising order.
pub open spec fn runs_ordered(runs: Seq<WidthRun>) -> bool {
    &&& runs.len() > 0
    &&& runs[0].start as u32 == 0
    &&& forall|i: int, j: int|
        0 <= i < j < runs.len() ==> ((#[trigger] runs[i]).start as u32) < ((
        #[trigger] runs[j]).start as u32)
}

/// In ordered runs the run that holds `c` is the one that starts at or before
/// `c` and whose successor, if it has one, starts after `c`.
proof fn lemma_width_in_run(runs: Seq<WidthRun>, c: char, i: int)
    requires
        runs_ordered(runs),
        0 <= i < runs.len(),
        runs[i].start as u32 <= c as u32,
        i + 1 < runs.len() ==> (c as u32) < runs[i + 1].start as u32,
    ensures
        width_in(runs, c) == runs[i].width,
    decreases runs.len(),
{
    if i + 1 < runs.len() {
        let shorter = runs.drop_last();
        assert(runs.last().start as u32 >= runs[i + 1].start as u32);
        assert(runs_ordered(shorter));
        lemma_width_in_run(shorter, c, i);
    }
}

impl CharWidths {
    #[verifier::type_invariant]
    spec fn ordered(self) -> bool {
        &&& runs_ordered(self.runs@)
        &&& self.runs@.last().start as u32 <= self.frontier as u32
    }

    /// The width that the table gives to `c`.
    pub closed spec fn width_of(self, c: char) -> Option<u8> {
        width_in(self.runs@, c)
    }

    /// The last character from which a width was set.
    pub closed spec fn frontier(self) -> char {
        self.frontier
    }

    /// The columns that `c` takes on screen: a character that cannot be
    /// printed takes none.
    pub open spec fn cols_of(self, c: char) -> nat {
        match self.width_of(c) {
            Some(w) => w as nat,
            None => 0,
        }
    }

    /// The columns that `text` takes on screen: the sum over its characters.
    pub open spec fn text_cols(self, text: Seq<char>) -> nat
        decreases text.len(),
    {
        if text.len() == 0 {
            0
        } else {
            self.text_cols(text.drop_last()) + self.cols_of(text.last())
        }
    }

    /// How many leading characters of `text` are kept when it is cut at `n`
    /// columns: those at which the width of the text up to and including
    /// them is still below `n`. It is the length of the longest prefix whose
    /// width is below `n`, and 0 where even the first character reaches `n`.
    pub open spec fn cut_point(self, text: Seq<char>, n: int) -> int
        decreases text.len(),
    {
        if text.len() == 0 {
            0
        } else if self.text_cols(text) < n {
            text.len() as int
        } else {
            self.cut_point(text.drop_last(), n)
        }
    }

    /// The table that gives every character the same `width`.
    pub fn uniform(width: Option<u8>) -> (table: CharWidths)
        ensures
            forall|c: char| table.width_of(c) == width,
            table.frontier() == '\0',
    {
        let mut runs: Vec<WidthRun> = Vec::new();
        runs.push(WidthRun { start: '\0', width });
        let table = CharWidths { runs, frontier: '\0' };
        assert forall|c: char| table.width_of(c) == width by {
            assert(table.runs@.drop_last().len() == 0);
        }
        table
    }

    /// The table that gives the characters from `start` on the width `width`
    /// and leaves the others as they are. That holds when `start` lies after
    /// the frontier; otherwise the table comes back as it is.
    pub fn with_run(self, start: char, width: Option<u8>) -> (table: CharWidths)
        ensures
            start as u32 > self.frontier() as u32 ==> table.frontier() == start,
            start as u32 > self.frontier() as u32 ==> forall|c: char|
                table.width_of(c) == if c as u32 >= start as u32 {
                    width
                } else {
                    self.width_of(c)
                },
            start as u32 <= self.frontier() as u32 ==> table == self,
    {
        proof {
            use_type_invariant(&self);
        }
        if start as u32 <= self.frontier as u32 {
            return self;
        }
        let ghost before = self.runs@;
        let CharWidths { mut runs, frontier: _ } = self;
        let last = runs[runs.len() - 1].width;
        let same = match (last, width) {
            (Some(a), Some(b)) => a == b,
            (None, None) => true,
            _ => false,
        };
        if !same {
            runs.push(WidthRun { start, width });
            proof {
                assert(runs@.drop_last() =~= before);
            }
        }
        proof {
            assert forall|c: char|
                width_in(runs@, c) == if c as u32 >= start as u32 {
                    width
                } else {
                    width_in(before, c)
                } by {}
        }
        CharWidths { runs, frontier: start }
    }

    /// The width of `c`.
    pub fn width(&self, c: char) -> (w: Option<u8>)
        ensures
            w == self.width_of(c),
    {
        proof {
            use_type_invariant(self);
        }
        let key: u32 = c as u32;
        let mut lo: usize = 0;
        let mut hi: usize = self.runs.len();
        while hi - lo > 1
            invariant
                runs_ordered(self.runs@),
                key == c as u32,
                0 <= lo < hi <= self.runs@.len(),
                self.runs@[lo as int].start as u32 <= key,
                hi < self.runs@.len() ==> key < self.runs@[hi as int].start as u32,
            decreases hi - lo,
        {
            let mid: usize = lo + (hi - lo) / 2;
            if self.runs[mid].start as u32 <= key {
                lo = mid;
            } else {
                hi = mid;
            }
        }
        proof {
            lemma_width_in_run(self.runs@, c, lo as int);
        }
        self.runs[lo].width
    }

    /// The columns that `c` takes on screen.
    pub fn char_cols(&self, c: char) -> (cols: u8)
        ensures
            cols == self.cols_of(c),
    {
        match self.width(c) {
            Some(w) => w,
            None => 0,
        }
    }
}

/// A longer prefix of a text is no narrower than a shorter one.
pub proof fn lemma_text_cols_monotone(widths: CharWidths, text: Seq<char>, i: int, j: int)
    requires
        0 <= i <= j <= text.len(),
    ensures
        widths.text_cols(text.take(i)) <= widths.text_cols(text.take(j)),
    decreases j - i,
{
    if i < j {
        lemma_text_cols_monotone(widths, text, i, j - 1);
        assert(text.take(j).drop_last() =~= text.take(j - 1));
    }
}

/// The cut point of a text at `n` columns is the one position `k` at which
/// the prefix of `k` characters is empty or narrower than `n`, and the prefix
/// of one character more, if there is one, is not.
pub proof fn lemma_cut_point_is(widths: CharWidths, text: Seq<char>, n: int, k: int)
    requires
        0 <= k <= text.len(),
        k == 0 || widths.text_cols(text.take(k)) < n,
        k == text.len() || widths.text_cols(text.take(k + 1)) >= n,
    ensures
        widths.cut_point(text, n) == k,
    decreases text.len(),
{
    if text.len() > 0 {
        assert(text.take(text.len() as int) =~= text);
        if widths.text_cols(text) < n {
            if k < text.len() {
                lemma_text_cols_monotone(widths, text, k + 1, text.len() as int);
            }
        } else {
            let shorter = text.drop_last();
            assert(shorter.take(k) =~= text.take(k));
            if k < shorter.len() {
                assert(shorter.take(k + 1) =~= text.take(k + 1));
            }
            lemma_cut_point_is(widths, shorter, n, k);
        }
    }
}

/// The cut point lies in the text, the prefix up to it is empty or narrower
/// than `n`, and one character more would reach `n`.
pub proof fn lemma_cut_point_bounds(widths: CharWidths, text: Seq<char>, n: int)
    ensures
        0 <= widths.cut_point(text, n) <= text.len(),
        widths.cut_point(text, n) == 0 || widths.text_cols(
            text.take(widths.cut_point(text, n)),
        ) < n,
        widths.cut_point(text, n) == text.len() || widths.text_cols(
            text.take(widths.cut_point(text, n) + 1),
        ) >= n,
    decreases text.len(),
{
    if text.len() > 0 {
        assert(text.take(text.len() as int) =~= text);
        if widths.text_cols(text) >= n {
            let shorter = text.drop_last();
            lemma_cut_point_bounds(widths, shorter, n);
            let k = widths.cut_point(shorter, n);
            assert(shorter.take(k) =~= text.take(k));
            if k < shorter.len() {
                assert(shorter.take(k + 1) =~= text.take(k + 1));
            }
        }
    }
}

} // verus!
