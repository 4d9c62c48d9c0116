use vstd::prelude::*;
use vstd::string::*;
use crate::types::Field;

verus! {

pub open spec fn digit_value(c: char) -> nat {
    if '0' <= c && c <= '9' {
        ((c as u32) - ('0' as u32)) as nat
    } else {
        0
    }
}

/// The decimal value of a run of digits, saturating at `u64::MAX`;
/// a character that is not a digit counts as zero.
pub open spec fn digits_value(s: Seq<char>) -> nat
    decreases s.len(),
{
    if s.len() == 0 {
        0
    } else {
        let v = digits_value(s.drop_last()) * 10 + digit_value(s.last());
        if v > u64::MAX {
            u64::MAX as nat
        } else {
            v
        }
    }
}

/// The number in a payload field label `f<decimal>`.
pub open spec fn label_number(l: Seq<char>) -> nat {
    if l.len() == 0 {
        0
    } else {
        digits_value(l.drop_first())
    }
}

pub fn label_number_of(l: &String) -> (r: u64)
    ensures
        r == label_number(l@),
{
    let s = l.as_str();
    let n = s.unicode_len();
    if n == 0 {
        return 0;
    }
    let mut v: u64 = 0;
    let mut i: usize = 1;
    proof {
        assert(l@.drop_first().subrange(0, 0) =~= Seq::<char>::empty());
    }
    while i < n
        invariant
            n == l@.len(),
            1 <= i <= n,
            s@ == l@,
            v == digits_value(l@.drop_first().subrange(0, i - 1)),
        decreases n - i,
    {
        let c = s.get_char(i);
        let d: u64 = if '0' <= c && c <= '9' {
            ((c as u32) - ('0' as u32)) as u64
        } else {
            0
        };
        assert(d <= 9);
        let ghost t = l@.drop_first().subrange(0, i as int);
        proof {
            assert(t.drop_last() =~= l@.drop_first().subrange(0, i - 1));
            assert(t.last() == c);
        }
        if v > (u64::MAX - d) / 10 {
            proof {
                assert(v * 10 + d > u64::MAX) by (nonlinear_arith)
                    requires
                        v > (u64::MAX - d) / 10,
                        d <= 9,
                ;
            }
            v = u64::MAX;
        } else {
            proof {
                assert(v * 10 + d <= u64::MAX) by (nonlinear_arith)
                    requires
                        v <= (u64::MAX - d) / 10,
                        d <= 9,
                ;
            }
            v = v * 10 + d;
        }
        i = i + 1;
    }
    proof {
        assert(l@.drop_first().subrange(0, n - 1) =~= l@.drop_first());
    }
    v
}

pub open spec fn field_keys(fields: Seq<Field>) -> Seq<u64> {
    fields.map_values(|f: Field| label_number(f.label_view()) as u64)
}

/// Where a key goes among `order`: after every entry at or from `j` whose
/// key is not greater.
pub open spec fn insert_pos(order: Seq<usize>, keys: Seq<u64>, key: u64, j: nat) -> nat
    decreases order.len() - j,
{
    if j >= order.len() {
        order.len()
    } else if keys[order[j as int] as int] > key {
        j
    } else {
        insert_pos(order, keys, key, j + 1)
    }
}

/// The indexes `0..n` ordered by key; equal keys keep their order.
pub open spec fn numeric_order(keys: Seq<u64>, n: nat) -> Seq<usize>
    decreases n,
{
    if n == 0 {
        Seq::empty()
    } else {
        let o = numeric_order(keys, (n - 1) as nat);
        o.insert(insert_pos(o, keys, keys[n - 1], 0) as int, (n - 1) as usize)
    }
}

/// The positions of `fields` ordered by the number in their labels, so that
/// `f2` comes before `f10`.
pub fn numeric_field_order(fields: &Vec<Field>) -> (r: Vec<usize>)
    ensures
        r@ == numeric_order(field_keys(fields@), fields@.len()),
        r@.len() == fields@.len(),
        forall|k: int| 0 <= k < r@.len() ==> r@[k] < fields@.len(),
{
    let n = fields.len();
    let mut keys: Vec<u64> = Vec::new();
    let mut i: usize = 0;
    while i < n
        invariant
            n == fields@.len(),
            i <= n,
            keys@ == field_keys(fields@).subrange(0, i as int),
        decreases n - i,
    {
        let k = label_number_of(fields[i].label());
        keys.push(k);
        i = i + 1;
        proof {
            assert(keys@ =~= field_keys(fields@).subrange(0, i as int));
        }
    }
    proof {
        assert(keys@ =~= field_keys(fields@));
    }
    let mut order: Vec<usize> = Vec::new();
    let mut i: usize = 0;
    while i < n
        invariant
            n == fields@.len(),
            keys@ == field_keys(fields@),
            i <= n,
            order@ == numeric_order(keys@, i as nat),
            order@.len() == i,
            forall|k: int| 0 <= k < order@.len() ==> order@[k] < i,
        decreases n - i,
    {
        let mut j: usize = 0;
        while j < order.len() && keys[order[j]] <= keys[i]
            invariant
                n == fields@.len(),
                keys@.len() == n,
                i < n,
                j <= order@.len(),
                forall|k: int| 0 <= k < order@.len() ==> order@[k] < i,
                insert_pos(order@, keys@, keys@[i as int], 0) == insert_pos(
                    order@,
                    keys@,
                    keys@[i as int],
                    j as nat,
                ),
            decreases order@.len() - j,
        {
            j = j + 1;
        }
        let ghost o = order@;
        order.insert(j, i);
        proof {
            assert(insert_pos(o, keys@, keys@[i as int], j as nat) == j);
            assert forall|k: int| 0 <= k < order@.len() implies order@[k] < i + 1 by {
                if k < j {
                    assert(order@[k] == o[k]);
                } else if k > j {
                    assert(order@[k] == o[k - 1]);
                }
            }
        }
        i = i + 1;
    }
    order
}

} // verus!
