use vstd::prelude::*;

use crate::text::{concat2, decimal, push_decimal};

verus! {

pub open spec fn pow1024(k: nat) -> nat
    decreases k,
{
    if k == 0 {
        1
    } else {
        1024 * pow1024((k - 1) as nat)
    }
}

/// The largest `k` with `1024^k <= size`, for a size of at least one byte.
pub open spec fn unit_index(size: nat) -> nat
    decreases size,
{
    if size < 1024 {
        0
    } else {
        1 + unit_index(size / 1024)
    }
}

/// The binary prefix of the unit `1024^k`.
pub open spec fn prefix(k: nat) -> Seq<char> {
    if k == 0 {
        ""@
    } else if k == 1 {
        "Ki"@
    } else if k == 2 {
        "Mi"@
    } else if k == 3 {
        "Gi"@
    } else if k == 4 {
        "Ti"@
    } else {
        "Pi"@
    }
}

/// A byte count in its largest binary unit, with the remainder in the next
/// smaller unit where there is one: `1 KiB, 512 B`, `3 MiB`, `17 B`.
pub open spec fn size_text(size: nat) -> Seq<char> {
    if size < 1024 {
        decimal(size) + " B"@
    } else {
        let k = unit_index(size);
        let s1 = size / pow1024(k);
        let s2 = (size % pow1024(k)) / pow1024((k - 1) as nat);
        if s2 != 0 {
            decimal(s1) + " "@ + prefix(k) + "B, "@ + decimal(s2) + " "@ + prefix((k - 1) as nat) + "B"@
        } else {
            decimal(s1) + " "@ + prefix(k) + "B"@
        }
    }
}

/// The unit index of a size of at least one KiB, by comparison with the
/// units.
pub open spec fn unit_by_bounds(size: nat) -> nat {
    if size >= 1125899906842624 {
        5
    } else if size >= 1099511627776 {
        4
    } else if size >= 1073741824 {
        3
    } else if size >= 1048576 {
        2
    } else {
        1
    }
}

proof fn lemma_unit_index(size: nat)
    requires
        1024 <= size < 1152921504606846976,
    ensures
        unit_index(size) == unit_by_bounds(size),
        pow1024(1) == 1024,
        pow1024(2) == 1048576,
        pow1024(3) == 1073741824,
        pow1024(4) == 1099511627776,
        pow1024(5) == 1125899906842624,
{
    reveal_with_fuel(pow1024, 6);
    let a = size / 1024;
    let b = a / 1024;
    let c = b / 1024;
    let d = c / 1024;
    let e = d / 1024;
    assert(unit_index(e) == 0);
    if size >= 1125899906842624 {
        assert(d >= 1024);
    } else if size >= 1099511627776 {
        assert(c >= 1024 && d < 1024);
    } else if size >= 1073741824 {
        assert(b >= 1024 && c < 1024);
    } else if size >= 1048576 {
        assert(a >= 1024 && b < 1024);
    } else {
        assert(a < 1024);
    }
    reveal_with_fuel(unit_index, 6);
}

fn prefix_str(k: u32) -> (r: &'static str)
    requires
        k <= 5,
    ensures
        r@ == prefix(k as nat),
{
    if k == 0 {
        ""
    } else if k == 1 {
        "Ki"
    } else if k == 2 {
        "Mi"
    } else if k == 3 {
        "Gi"
    } else if k == 4 {
        "Ti"
    } else {
        "Pi"
    }
}

/// Writes a byte count for people to read; see `size_text`.
pub fn format_size(size: u64) -> (r: String)
    requires
        size < 1152921504606846976u64,
    ensures
        r@ == size_text(size as nat),
{
    if size < 1024 {
        let mut s = String::new();
        push_decimal(&mut s, size);
        return concat2(s.as_str(), " B");
    }
    let (index, unit): (u32, u64) = if size >= 1125899906842624 {
        (5, 1125899906842624)
    } else if size >= 1099511627776 {
        (4, 1099511627776)
    } else if size >= 1073741824 {
        (3, 1073741824)
    } else if size >= 1048576 {
        (2, 1048576)
    } else {
        (1, 1024)
    };
    proof {
        lemma_unit_index(size as nat);
    }
    let s1 = size / unit;
    let s2 = (size % unit) / (unit / 1024);
    let mut s = String::new();
    push_decimal(&mut s, s1);
    let s = concat2(s.as_str(), " ");
    let s = concat2(s.as_str(), prefix_str(index));
    if s2 != 0 {
        let mut t = concat2(s.as_str(), "B, ");
        push_decimal(&mut t, s2);
        let t = concat2(t.as_str(), " ");
        let t = concat2(t.as_str(), prefix_str(index - 1));
        concat2(t.as_str(), "B")
    } else {
        concat2(s.as_str(), "B")
    }
}

} // verus!
