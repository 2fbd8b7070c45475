//! H.264 streams: the units that a buffer holds, and the form in which a
//! hardware decoder takes them.

use crate::media::{StreamError, StreamProblem};
use crate::wire::{be, from_be, put_be};
use vstd::prelude::*;

verus! {

/// How long the start code is that stands in `d` at `j`; zero where none does.
pub open spec fn start_code(d: Seq<u8>, j: int) -> int {
    if 0 <= j && j + 4 <= d.len() && d[j] == 0 && d[j + 1] == 0 && d[j + 2] == 0 && d[j + 3] == 1 {
        4
    } else if 0 <= j && j + 3 <= d.len() && d[j] == 0 && d[j + 1] == 0 && d[j + 2] == 1 {
        3
    } else {
        0
    }
}

/// The first place at or behind `j` where a start code stands, or the end.
pub open spec fn next_start(d: Seq<u8>, j: int) -> int
    decreases d.len() - j,
{
    if j + 3 > d.len() {
        d.len() as int
    } else if start_code(d, j) > 0 {
        j
    } else {
        next_start(d, j + 1)
    }
}

/// The search for a start code ends at one, or at the end.
pub proof fn next_start_bounds(d: Seq<u8>, j: int)
    requires
        0 <= j <= d.len(),
    ensures
        j <= next_start(d, j) <= d.len(),
        next_start(d, j) < d.len() ==> start_code(d, next_start(d, j)) > 0,
    decreases d.len() - j,
{
    if j + 3 <= d.len() && start_code(d, j) == 0 {
        next_start_bounds(d, j + 1);
    }
}

/// The units of `d` from `j` on, where a start code stands or `d` ends: what
/// stands between one start code and the next, where anything does.
pub open spec fn units_from(d: Seq<u8>, j: int) -> Seq<Seq<u8>>
    decreases d.len() - j,
{
    if 0 <= j < d.len() && start_code(d, j) > 0 {
        let from = j + start_code(d, j);
        let to = next_start(d, from);
        proof {
            next_start_bounds(d, from);
        }
        if to > from {
            seq![d.subrange(from, to)] + units_from(d, to)
        } else {
            units_from(d, to)
        }
    } else {
        seq![]
    }
}

/// The units of `d`. What stands before the first start code belongs to none.
pub open spec fn units(d: Seq<u8>) -> Seq<Seq<u8>> {
    units_from(d, next_start(d, 0))
}

/// What the byte vectors of a list hold, in order.
pub open spec fn bytes(v: Seq<Vec<u8>>) -> Seq<Seq<u8>> {
    v.map_values(|b: Vec<u8>| b@)
}

/// Units, each with its length before it in four bytes.
pub open spec fn framed(us: Seq<Seq<u8>>) -> Seq<u8>
    decreases us.len(),
{
    if us.len() == 0 {
        seq![]
    } else {
        framed(us.drop_last()) + be(us.last().len(), 4) + us.last()
    }
}

/// The units that `d` holds with their lengths before them.
pub open spec fn unframed(d: Seq<u8>) -> Seq<Seq<u8>>
    decreases d.len(),
{
    if d.len() < 4 {
        seq![]
    } else {
        let n = from_be(d.take(4));
        if 4 + n > d.len() {
            seq![]
        } else {
            seq![d.subrange(4, 4 + n as int)] + unframed(d.skip(4 + n as int))
        }
    }
}

proof fn framed_from_the_front(us: Seq<Seq<u8>>)
    requires
        us.len() > 0,
    ensures
        framed(us) == be(us[0].len(), 4) + us[0] + framed(us.skip(1)),
    decreases us.len(),
{
    if us.len() == 1 {
        assert(us.drop_last() =~= seq![]);
        assert(framed(us.drop_last()) =~= seq![]);
        assert(us.skip(1) =~= seq![]);
        assert(framed(us) =~= be(us[0].len(), 4) + us[0] + framed(us.skip(1)));
    } else {
        framed_from_the_front(us.drop_last());
        assert(us.drop_last().skip(1) =~= us.skip(1).drop_last());
        assert(framed(us) =~= be(us[0].len(), 4) + us[0] + framed(us.skip(1)));
    }
}

/// Units that were framed are found again, where the length of each fits in
/// four bytes.
pub proof fn framed_reads_back(us: Seq<Seq<u8>>)
    requires
        forall|i: int| 0 <= i < us.len() ==> (#[trigger] us[i]).len() < 0x1_0000_0000,
    ensures
        unframed(framed(us)) == us,
    decreases us.len(),
{
    if us.len() > 0 {
        let u = us[0];
        let d = framed(us);
        framed_from_the_front(us);
        crate::wire::be_len(u.len(), 4);
        crate::wire::spans();
        crate::wire::be_reads_back(u.len(), 4);
        assert(d.take(4) =~= be(u.len(), 4));
        assert(d.subrange(4, 4 + u.len() as int) =~= u);
        assert(d.skip(4 + u.len() as int) =~= framed(us.skip(1)));
        framed_reads_back(us.skip(1));
        assert(seq![u] + us.skip(1) =~= us);
    } else {
        assert(framed(us) =~= seq![]);
        assert(us =~= seq![]);
    }
}

proof fn units_are_short(d: Seq<u8>, j: int)
    requires
        0 <= j,
    ensures
        forall|i: int|
            0 <= i < units_from(d, j).len() ==> 0 < (#[trigger] units_from(d, j)[i]).len()
                <= d.len(),
    decreases d.len() - j,
{
    if j < d.len() && start_code(d, j) > 0 {
        let from = j + start_code(d, j);
        let to = next_start(d, from);
        next_start_bounds(d, from);
        units_are_short(d, to);
        if to > from {
            let us = units_from(d, j);
            assert forall|i: int| 0 <= i < us.len() implies 0 < (#[trigger] us[i]).len()
                <= d.len() by {
                if i > 0 {
                    assert(us[i] == units_from(d, to)[i - 1]);
                }
            }
        }
    }
}

/// No unit is lost or changed on the way to the hardware: the framed form of a
/// buffer holds its units.
pub proof fn framing_keeps_units(d: Seq<u8>)
    requires
        d.len() < 0x1_0000_0000,
    ensures
        unframed(framed(units(d))) == units(d),
{
    next_start_bounds(d, 0);
    units_are_short(d, next_start(d, 0));
    framed_reads_back(units(d));
}

/// No unit is empty.
pub proof fn no_unit_is_empty(d: Seq<u8>)
    ensures
        forall|i: int| 0 <= i < units(d).len() ==> 0 < (#[trigger] units(d)[i]).len(),
{
    next_start_bounds(d, 0);
    units_are_short(d, next_start(d, 0));
}

fn start_code_at(d: &Vec<u8>, j: usize) -> (n: usize)
    requires
        j + 3 <= d.len(),
    ensures
        n == start_code(d@, j as int),
{
    if d.len() - j >= 4 && d[j] == 0 && d[j + 1] == 0 && d[j + 2] == 0 && d[j + 3] == 1 {
        4
    } else if d[j] == 0 && d[j + 1] == 0 && d[j + 2] == 1 {
        3
    } else {
        0
    }
}

fn find_start(d: &Vec<u8>, from: usize) -> (j: usize)
    requires
        from <= d.len(),
    ensures
        j == next_start(d@, from as int),
        from <= j <= d.len(),
{
    let mut j: usize = from;
    while d.len() - j >= 3 && start_code_at(d, j) == 0
        invariant
            from <= j <= d.len(),
            next_start(d@, from as int) == next_start(d@, j as int),
        decreases d.len() - j,
    {
        j = j + 1;
    }
    if d.len() - j < 3 {
        j = d.len();
    }
    j
}

fn part(d: &Vec<u8>, from: usize, to: usize) -> (r: Vec<u8>)
    requires
        from <= to <= d.len(),
    ensures
        r@ == d@.subrange(from as int, to as int),
{
    let mut r: Vec<u8> = Vec::new();
    let mut i: usize = from;
    while i < to
        invariant
            from <= i <= to <= d.len(),
            r@ == d@.subrange(from as int, i as int),
        decreases to - i,
    {
        r.push(d[i]);
        assert(r@ =~= d@.subrange(from as int, i + 1));
        i = i + 1;
    }
    r
}

/// The units of a buffer, without the start codes between them.
pub fn nal_units(data: &Vec<u8>) -> (r: Vec<Vec<u8>>)
    ensures
        bytes(r@) == units(data@),
{
    let mut r: Vec<Vec<u8>> = Vec::new();
    let mut j: usize = find_start(data, 0);
    proof {
        next_start_bounds(data@, 0);
    }
    assert(bytes(r@) + units_from(data@, j as int) =~= units(data@));
    while j < data.len()
        invariant
            j <= data.len(),
            j < data.len() ==> start_code(data@, j as int) > 0,
            bytes(r@) + units_from(data@, j as int) == units(data@),
        decreases data.len() - j,
    {
        let n: usize = start_code_at(data, j);
        let from: usize = j + n;
        let to: usize = find_start(data, from);
        proof {
            next_start_bounds(data@, from as int);
        }
        let ghost was = bytes(r@);
        if to > from {
            let unit = part(data, from, to);
            let ghost u = unit@;
            r.push(unit);
            assert(bytes(r@) =~= was.push(u));
            assert(was.push(u) + units_from(data@, to as int) =~= was + (seq![u] + units_from(
                data@,
                to as int,
            )));
        }
        j = to;
    }
    assert(bytes(r@) =~= units(data@));
    r
}

/// The units of a buffer, each with its length before it in four bytes.
pub fn annexb_to_avcc(data: &Vec<u8>) -> (r: Vec<u8>)
    ensures
        r@ == framed(units(data@)),
{
    let us = nal_units(data);
    let ghost all = bytes(us@);
    let mut r: Vec<u8> = Vec::new();
    let mut i: usize = 0;
    assert(all.take(0) =~= seq![]);
    while i < us.len()
        invariant
            i <= us.len(),
            all == bytes(us@),
            r@ == framed(all.take(i as int)),
        decreases us.len() - i,
    {
        assert(all.take(i + 1).drop_last() =~= all.take(i as int));
        assert(all.take(i + 1).last() == us@[i as int]@);
        put_be(&mut r, us[i].len() as u64, 4);
        r.extend_from_slice(us[i].as_slice());
        i = i + 1;
    }
    assert(all.take(us@.len() as int) =~= all);
    r
}

/// What a unit is: the lowest five bits of its first byte.
pub open spec fn unit_type(u: Seq<u8>) -> int {
    if u.len() == 0 {
        0
    } else {
        (u[0] & 0x1f) as int
    }
}

/// The last of the units `us` that is of the type `t`.
pub open spec fn last_of(us: Seq<Seq<u8>>, t: int) -> Option<Seq<u8>>
    decreases us.len(),
{
    if us.len() == 0 {
        None
    } else if us.last().len() > 0 && unit_type(us.last()) == t {
        Some(us.last())
    } else {
        last_of(us.drop_last(), t)
    }
}

/// What a decoder needs to begin: the last set of each of the two types that
/// the buffer holds, or which one is missing.
pub open spec fn sets_of(d: Seq<u8>) -> Result<(Seq<u8>, Seq<u8>), StreamProblem> {
    match (last_of(units(d), 7), last_of(units(d), 8)) {
        (None, _) => Err(StreamProblem::Protocol("no SPS in config packet"@)),
        (_, None) => Err(StreamProblem::Protocol("no PPS in config packet"@)),
        (Some(sps), Some(pps)) => Ok((sps, pps)),
    }
}

fn last_unit(us: &Vec<Vec<u8>>, t: u8) -> (r: Option<Vec<u8>>)
    ensures
        match r {
            Some(u) => last_of(bytes(us@), t as int) == Some(u@),
            None => last_of(bytes(us@), t as int) is None,
        },
{
    let ghost all = bytes(us@);
    let mut n: usize = us.len();
    assert(all.take(n as int) =~= all);
    while n > 0
        invariant
            n <= us.len(),
            all == bytes(us@),
            last_of(all, t as int) == last_of(all.take(n as int), t as int),
        decreases n,
    {
        assert(all.take(n as int).last() == us@[n - 1]@);
        assert(all.take(n as int).drop_last() =~= all.take(n - 1));
        if us[n - 1].len() > 0 && us[n - 1][0] & 0x1f == t {
            return Some(part(&us[n - 1], 0, us[n - 1].len()));
        }
        n = n - 1;
    }
    None
}

/// What a decoder needs to begin, from the packet that holds it.
pub fn parameter_sets(data: &Vec<u8>) -> (r: Result<(Vec<u8>, Vec<u8>), StreamError>)
    ensures
        match r {
            Ok((sps, pps)) => sets_of(data@) == Ok::<_, StreamProblem>((sps@, pps@)),
            Err(e) => sets_of(data@) == Err::<(Seq<u8>, Seq<u8>), _>(e@),
        },
{
    let us = nal_units(data);
    let sps = match last_unit(&us, 7) {
        Some(u) => u,
        None => {
            return Err(StreamError::Protocol("no SPS in config packet".to_owned()));
        },
    };
    match last_unit(&us, 8) {
        Some(pps) => Ok((sps, pps)),
        None => Err(StreamError::Protocol("no PPS in config packet".to_owned())),
    }
}

} // verus!
