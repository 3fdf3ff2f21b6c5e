//! The run configuration, as plain values, with the defaults its optional
//! fields take and the breakpoint-list invariant: the list the debugger
//! consumes is sorted, built once from the configured breakpoints plus the
//! command line's extras.
use vstd::prelude::*;

verus! {

/// A breakpoint list's invariant: ascending order (duplicates tolerated;
/// membership is all that matters).
pub open spec fn sorted(s: Seq<u16>) -> bool {
    forall|i: int, j: int| 0 <= i <= j < s.len() ==> s[i] <= s[j]
}

/// The resolved run configuration.
pub struct Config {
    pub in_path: String,
    pub compile: bool,
    pub memory_len: usize,
    pub display: bool,
    pub debug: bool,
    pub breakpoints: Vec<u16>,
    pub root_dir: String,
}

/// Default for `compile`: run the input file as an already-built binary.
pub fn _compile_default() -> (r: bool)
    ensures
        r == false,
{
    false
}

/// Default for `root_dir`: empty, standing for "beside the configuration
/// file".
pub fn _root_dir_default() -> (r: String)
    ensures
        r@.len() == 0,
{
    String::new()
}

/// Default for `display`: attach the windowed display.
pub fn _display_default() -> (r: bool)
    ensures
        r == true,
{
    true
}

/// Default for `debug`: run freely, without the debugger.
pub fn _debug_default() -> (r: bool)
    ensures
        r == false,
{
    false
}

/// Default for `memory_len`: the RAM size handed to the machine.
pub fn _memory_len_default() -> (r: usize)
    ensures
        r == 32 * 1024 * 1024,
{
    32 * 1024 * 1024
}

/// Default for `breakpoints`: none configured.
pub fn _breakpoints_default() -> (r: Vec<u16>)
    ensures
        r@.len() == 0,
{
    Vec::new()
}

/// Insert `x` into a sorted list, keeping it sorted; the contents gain
/// exactly one occurrence of `x`.
fn sorted_insert(v: &mut Vec<u16>, x: u16)
    requires
        sorted(old(v)@),
        old(v)@.len() < usize::MAX,
    ensures
        sorted(final(v)@),
        final(v)@.to_multiset() =~= old(v)@.to_multiset().insert(x),
        final(v)@.len() == old(v)@.len() + 1,
{
    let mut p: usize = 0;
    while p < v.len() && v[p] <= x
        invariant
            sorted(v@),
            v@ == old(v)@,
            p <= v@.len(),
            forall|k: int| 0 <= k < p ==> v@[k] <= x,
        decreases v@.len() - p,
    {
        p = p + 1;
    }
    v.insert(p, x);
    proof {
        broadcast use vstd::seq_lib::group_to_multiset_ensures;

        let s = old(v)@;
        let t = v@;
        s.insert_ensures(p as int, x);
        assert(sorted(t)) by {
            assert forall|i: int, j: int| 0 <= i <= j < t.len() implies t[i] <= t[j] by {
                if i < p && j > p {
                    assert(t[i] == s[i]);
                    assert(t[j] == s[j - 1]);
                }
            }
        }
        assert(t.remove(p as int) =~= s);
        assert(t.remove(p as int).to_multiset() =~= t.to_multiset().remove(t[p as int]));
        assert(t[p as int] == x);
        assert(t.contains(x));
        assert(t.to_multiset().contains(x));
        assert(t.to_multiset() =~= s.to_multiset().insert(x));
    }
}

impl Config {
    /// Fold the command line's extra breakpoints into the configured list
    /// and sort the whole, establishing the breakpoint set's invariant;
    /// every other setting is untouched.
    pub fn merge_breakpoints(&mut self, extra: &Vec<u16>)
        requires
            old(self).breakpoints@.len() + extra@.len() < usize::MAX,
        ensures
            sorted(final(self).breakpoints@),
            final(self).breakpoints@.to_multiset() =~= old(self).breakpoints@.to_multiset().add(
                extra@.to_multiset(),
            ),
            final(self).breakpoints@.len() == old(self).breakpoints@.len() + extra@.len(),
            final(self).in_path == old(self).in_path,
            final(self).compile == old(self).compile,
            final(self).memory_len == old(self).memory_len,
            final(self).display == old(self).display,
            final(self).debug == old(self).debug,
            final(self).root_dir == old(self).root_dir,
    {
        proof {
            broadcast use vstd::seq_lib::group_to_multiset_ensures;

        }
        let mut result: Vec<u16> = Vec::new();
        let mut i: usize = 0;
        while i < self.breakpoints.len()
            invariant
                self == old(self),
                i <= self.breakpoints@.len(),
                sorted(result@),
                result@.len() == i,
                result@.to_multiset() =~= self.breakpoints@.take(i as int).to_multiset(),
            decreases self.breakpoints@.len() - i,
        {
            proof {
                broadcast use vstd::seq_lib::group_to_multiset_ensures;

                assert(self.breakpoints@.take(i + 1) =~= self.breakpoints@.take(i as int).push(
                    self.breakpoints@[i as int],
                ));
            }
            let x = self.breakpoints[i];
            sorted_insert(&mut result, x);
            i = i + 1;
        }
        proof {
            assert(self.breakpoints@.take(self.breakpoints@.len() as int) =~= self.breakpoints@);
        }
        let mut j: usize = 0;
        while j < extra.len()
            invariant
                self == old(self),
                old(self).breakpoints@.len() + extra@.len() < usize::MAX,
                j <= extra@.len(),
                sorted(result@),
                result@.len() == self.breakpoints@.len() + j,
                result@.to_multiset() =~= self.breakpoints@.to_multiset().add(
                    extra@.take(j as int).to_multiset(),
                ),
            decreases extra@.len() - j,
        {
            proof {
                broadcast use vstd::seq_lib::group_to_multiset_ensures;

                assert(extra@.take(j + 1) =~= extra@.take(j as int).push(extra@[j as int]));
            }
            let x = extra[j];
            sorted_insert(&mut result, x);
            j = j + 1;
        }
        proof {
            assert(extra@.take(extra@.len() as int) =~= extra@);
        }
        self.breakpoints = result;
    }
}

} // verus!
