use vstd::prelude::*;
use crate::text::{find_char, find_char_from};

verus! {

/// Name to value table for `@@name@@` substitution. Binding a name again
/// replaces its earlier value.
#[derive(Debug)]
pub struct Vars {
    entries: Vec<(String, String)>,
}

/// The value given to `key` by the last binding of it in `entries`.
spec fn binding(entries: Seq<(String, String)>, key: Seq<char>) -> Option<Seq<char>>
    decreases entries.len(),
{
    if entries.len() == 0 {
        None
    } else if entries.last().0@ == key {
        Some(entries.last().1@)
    } else {
        binding(entries.drop_last(), key)
    }
}

impl View for Vars {
    type V = Map<Seq<char>, Seq<char>>;

    closed spec fn view(&self) -> Map<Seq<char>, Seq<char>> {
        Map::new(
            |k: Seq<char>| binding(self.entries@, k) is Some,
            |k: Seq<char>| binding(self.entries@, k)->0,
        )
    }
}

impl Vars {
    /// An empty table.
    pub fn new() -> (r: Vars)
        ensures
            r@ == Map::<Seq<char>, Seq<char>>::empty(),
    {
        let r = Vars { entries: Vec::new() };
        assert(r@ =~= Map::<Seq<char>, Seq<char>>::empty());
        r
    }

    /// Binds `key` to `value`, replacing any earlier value of `key`.
    pub fn insert(&mut self, key: String, value: String)
        ensures
            final(self)@ == old(self)@.insert(key@, value@),
    {
        let ghost before = self.entries@;
        self.entries.push((key, value));
        proof {
            assert(self.entries@.drop_last() =~= before);
            assert forall|k: Seq<char>|
                binding(self.entries@, k) == if k == key@ {
                    Some(value@)
                } else {
                    binding(before, k)
                } by {}
            assert(self@ =~= old(self)@.insert(key@, value@));
        }
    }

    /// The value bound to `key`, if any.
    pub fn get(&self, key: &str) -> (r: Option<&String>)
        ensures
            match r {
                Some(v) => self@.contains_key(key@) && self@[key@] == v@,
                None => !self@.contains_key(key@),
            },
    {
        let k = key.to_owned();
        let mut i = self.entries.len();
        assert(self.entries@.subrange(0, i as int) =~= self.entries@);
        while i > 0
            invariant
                i <= self.entries.len(),
                k@ == key@,
                binding(self.entries@, key@) == binding(self.entries@.subrange(0, i as int), key@),
            decreases i,
        {
            i = i - 1;
            proof {
                assert(self.entries@.subrange(0, i + 1).drop_last()
                    =~= self.entries@.subrange(0, i as int));
            }
            if self.entries[i].0 == k {
                return Some(&self.entries[i].1);
            }
        }
        assert(self.entries@.subrange(0, 0).len() == 0);
        None
    }
}

/// The split of `s` at its first `=`: the text before it and the text after it.
pub open spec fn split_at_eq(s: Seq<char>) -> Option<(Seq<char>, Seq<char>)> {
    let i = find_char_from(s, '=', 0);
    if i < s.len() {
        Some((s.subrange(0, i), s.subrange(i + 1, s.len() as int)))
    } else {
        None
    }
}

/// The table built from `key=value` items in order; items without `=` are ignored.
pub open spec fn vars_from_eq_items(items: Seq<Seq<char>>) -> Map<Seq<char>, Seq<char>>
    decreases items.len(),
{
    if items.len() == 0 {
        Map::empty()
    } else {
        let m = vars_from_eq_items(items.drop_last());
        match split_at_eq(items.last()) {
            Some((k, v)) => m.insert(k, v),
            None => m,
        }
    }
}

/// The table built from `key value key value ...`; an unpaired last item is ignored.
pub open spec fn vars_from_pairs(items: Seq<Seq<char>>) -> Map<Seq<char>, Seq<char>>
    decreases items.len(),
{
    if items.len() < 2 {
        Map::empty()
    } else {
        let n = (items.len() / 2) * 2;
        vars_from_pairs(items.subrange(0, n - 2)).insert(items[n - 2], items[n - 1])
    }
}

/// Builds a table from items of the form `key=value`, split at the first `=`.
pub fn _to_vars_split_eq(v: Vec<String>) -> (r: Vars)
    ensures
        r@ == vars_from_eq_items(v@.map_values(|s: String| s@)),
{
    let ghost items = v@.map_values(|s: String| s@);
    let mut vars = Vars::new();
    let mut i: usize = 0;
    while i < v.len()
        invariant
            i <= v.len(),
            items == v@.map_values(|s: String| s@),
            vars@ == vars_from_eq_items(items.subrange(0, i as int)),
        decreases v.len() - i,
    {
        let s = v[i].as_str();
        let n = s.unicode_len();
        let pos = find_char(s, '=', 0);
        proof {
            assert(items.subrange(0, i + 1).drop_last() =~= items.subrange(0, i as int));
            assert(items.subrange(0, i + 1).last() == s@);
        }
        if pos < n {
            let key = s.substring_char(0, pos).to_owned();
            let value = s.substring_char(pos + 1, n).to_owned();
            vars.insert(key, value);
        }
        i = i + 1;
    }
    assert(items.subrange(0, v.len() as int) =~= items);
    vars
}

/// Builds a table from alternating keys and values.
pub fn to_vars_split_odd(v: Vec<String>) -> (r: Vars)
    ensures
        r@ == vars_from_pairs(v@.map_values(|s: String| s@)),
{
    let ghost items = v@.map_values(|s: String| s@);
    let mut vars = Vars::new();
    let mut i: usize = 0;
    while i + 1 < v.len()
        invariant
            i <= v.len(),
            i % 2 == 0,
            items == v@.map_values(|s: String| s@),
            vars@ == vars_from_pairs(items.subrange(0, i as int)),
        decreases v.len() - i,
    {
        proof {
            let sub = items.subrange(0, i + 2);
            assert(sub.subrange(0, i as int) =~= items.subrange(0, i as int));
            assert((sub.len() / 2) * 2 == i + 2) by (nonlinear_arith)
                requires sub.len() == i + 2, i % 2 == 0;
        }
        vars.insert(v[i].clone(), v[i + 1].clone());
        i = i + 2;
    }
    proof {
        let n = items.len();
        if n >= 2 {
            assert((n / 2) * 2 == i) by (nonlinear_arith)
                requires i % 2 == 0, i <= n, i + 1 >= n;
            assert(items.subrange(0, (n / 2) * 2 - 2) =~= items.subrange(0, i - 2)) ;
        }
        lemma_pairs_ignore_odd(items, i as int);
    }
    vars
}

proof fn lemma_pairs_ignore_odd(items: Seq<Seq<char>>, i: int)
    requires
        0 <= i <= items.len(),
        i % 2 == 0,
        i + 1 >= items.len(),
    ensures
        vars_from_pairs(items) == vars_from_pairs(items.subrange(0, i)),
{
    let n = items.len();
    if n >= 2 {
        assert((n / 2) * 2 == i) by (nonlinear_arith)
            requires i % 2 == 0, i <= n, i + 1 >= n;
        let sub = items.subrange(0, i);
        assert((sub.len() / 2) * 2 == i) by (nonlinear_arith)
            requires sub.len() == i, i % 2 == 0;
        assert(sub.subrange(0, i - 2) =~= items.subrange(0, i - 2));
        assert(sub[i - 2] == items[i - 2]);
        assert(sub[i - 1] == items[i - 1]);
    } else {
        assert(i == 0);
    }
}

/// `cmd` followed by each of `args`, separated by single spaces.
pub open spec fn spaced(cmd: Seq<char>, args: Seq<Seq<char>>) -> Seq<char>
    decreases args.len(),
{
    if args.len() == 0 {
        cmd
    } else {
        spaced(cmd, args.drop_last()) + seq![' '] + args.last()
    }
}

/// The command line `cmd arg1 arg2 ...` as one string.
pub fn _cmdline(cmd: String, args: Vec<&str>) -> (r: String)
    ensures
        r@ == spaced(cmd@, args@.map_values(|a: &str| a@)),
{
    let ghost items = args@.map_values(|a: &str| a@);
    let mut full = cmd;
    let mut i: usize = 0;
    while i < args.len()
        invariant
            i <= args.len(),
            items == args@.map_values(|a: &str| a@),
            full@ == spaced(cmd@, items.subrange(0, i as int)),
        decreases args.len() - i,
    {
        proof {
            assert(items.subrange(0, i + 1).drop_last() =~= items.subrange(0, i as int));
            reveal_strlit(" ");
        }
        full.append(" ");
        full.append(args[i]);
        i = i + 1;
    }
    assert(items.subrange(0, args.len() as int) =~= items);
    full
}

} // verus!
