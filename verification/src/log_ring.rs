//! In-memory ring of the most recent log lines, shown by the debugger's
//! log panel. Holds at most [`MAX_LINES`]; the oldest line gives way to a
//! new one.
use vstd::prelude::*;
use std::collections::VecDeque;

verus! {

pub const MAX_LINES: usize = 1000;

pub struct LogRing {
    lines: VecDeque<String>,
}

impl View for LogRing {
    type V = Seq<Seq<char>>;

    /// The kept lines' text, oldest first.
    closed spec fn view(&self) -> Seq<Seq<char>> {
        self.lines@.map_values(|s: String| s@)
    }
}

impl LogRing {
    pub fn new() -> (r: Self)
        ensures
            r@ == Seq::<Seq<char>>::empty(),
    {
        let r = LogRing { lines: VecDeque::new() };
        proof {
            assert(r@ =~= Seq::<Seq<char>>::empty());
        }
        r
    }

    /// Appends `line`, dropping the oldest line when the ring is full.
    pub fn push_line(&mut self, line: String)
        requires
            old(self)@.len() <= MAX_LINES,
        ensures
            final(self)@ == if old(self)@.len() >= MAX_LINES {
                old(self)@.drop_first().push(line@)
            } else {
                old(self)@.push(line@)
            },
            final(self)@.len() <= MAX_LINES,
    {
        if self.lines.len() >= MAX_LINES {
            self.lines.pop_front();
        }
        self.lines.push_back(line);
        proof {
            if old(self)@.len() >= MAX_LINES {
                assert(self@ =~= old(self)@.drop_first().push(line@));
            } else {
                assert(self@ =~= old(self)@.push(line@));
            }
        }
    }

    /// Copy of the kept lines, oldest first.
    pub fn snapshot(&self) -> (out: Vec<String>)
        ensures
            out@.map_values(|s: String| s@) == self@,
    {
        let mut out: Vec<String> = Vec::new();
        let mut i: usize = 0;
        while i < self.lines.len()
            invariant
                i <= self.lines@.len(),
                out@.len() == i,
                forall|k: int| 0 <= k < i ==> #[trigger] out@[k]@ == self.lines@[k]@,
            decreases self.lines@.len() - i,
        {
            let line = self.lines[i].clone();
            out.push(line);
            i = i + 1;
        }
        proof {
            assert(out@.map_values(|s: String| s@) =~= self@);
        }
        out
    }
}

} // verus!
