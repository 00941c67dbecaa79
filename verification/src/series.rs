//! Which series of a collection are complete, and which of their volumes are
//! missing.

use vstd::prelude::*;

verus! {

/// How far a collection has come with a series.
#[derive(Debug, Clone, Copy, PartialEq, Eq, Structural)]
pub struct SeriesProgress {
    /// Whether further volumes are still being published.
    pub ongoing: bool,
    /// Number of volumes that are owned.
    pub owned_count: i64,
    /// Number of volumes published so far, where it is known.
    pub total_count: Option<i32>,
}

/// Where a series belongs in the report on ongoing series.
#[derive(Debug, Clone, Copy, PartialEq, Eq, Structural)]
pub enum Standing {
    /// Every volume published so far is owned, and more are to come.
    AllOwned,
    /// The number of volumes is known, and it is not the number owned.
    Missing,
    /// The series does not appear in the report.
    Unlisted,
}

impl SeriesProgress {
    /// As many volumes are owned as were published.
    pub open spec fn complete(self) -> bool {
        self.total_count matches Some(total) && total as int == self.owned_count as int
    }

    pub open spec fn spec_standing(self) -> Standing {
        if self.complete() {
            if self.ongoing {
                Standing::AllOwned
            } else {
                Standing::Unlisted
            }
        } else if self.total_count is Some {
            Standing::Missing
        } else {
            Standing::Unlisted
        }
    }

    /// Where the series belongs in the report on ongoing series.
    pub fn standing(&self) -> (r: Standing)
        ensures
            r == self.spec_standing(),
    {
        match self.total_count {
            Some(total) => {
                if total as i64 == self.owned_count {
                    if self.ongoing {
                        Standing::AllOwned
                    } else {
                        Standing::Unlisted
                    }
                } else {
                    Standing::Missing
                }
            },
            None => Standing::Unlisted,
        }
    }
}

/// One volume that a series has and the collection lacks.
#[derive(Debug, Clone, Copy, PartialEq, Eq, Structural)]
pub struct MissingVolume {
    /// Identifier of the series.
    pub series: u128,
    /// Number of the volume in the series.
    pub number: i32,
}

/// The numbers of the volumes of one series, in the order of the rows.
pub open spec fn numbers_of(rows: Seq<MissingVolume>, series: u128) -> Seq<i32> {
    rows.filter_map(
        |row: MissingVolume|
            if row.series == series {
                Some(row.number)
            } else {
                None
            },
    )
}

/// No number comes before a smaller one.
pub open spec fn ascending(numbers: Seq<i32>) -> bool {
    forall|i: int, j: int| 0 <= i < j < numbers.len() ==> numbers[i] <= numbers[j]
}

/// Putting a number into a sequence adds it to what the sequence holds.
proof fn lemma_insert_to_multiset(s: Seq<i32>, i: int, x: i32)
    requires
        0 <= i <= s.len(),
    ensures
        s.insert(i, x).to_multiset() == s.to_multiset().insert(x),
{
    let t = s.insert(i, x);
    t.to_multiset_ensures();
    assert(t.remove(i) =~= s);
    assert(t[i] == x);
    assert(t.contains(x));
    assert(t.to_multiset() =~= s.to_multiset().insert(x));
}

/// Puts a number into an ascending list, at its place.
fn insert_ascending(numbers: &mut Vec<i32>, x: i32)
    requires
        ascending(old(numbers)@),
    ensures
        ascending(final(numbers)@),
        final(numbers)@.to_multiset() == old(numbers)@.to_multiset().insert(x),
{
    let mut at: usize = 0;
    while at < numbers.len() && numbers[at] <= x
        invariant
            at <= numbers.len(),
            *numbers == *old(numbers),
            forall|k: int| 0 <= k < at ==> numbers@[k] <= x,
        decreases numbers.len() - at,
    {
        at += 1;
    }
    proof {
        lemma_insert_to_multiset(numbers@, at as int, x);
    }
    let ghost before = numbers@;
    numbers.insert(at, x);
    assert forall|i: int, j: int| 0 <= i < j < numbers@.len() implies numbers@[i] <= numbers@[j] by {
        if i < at && j > at {
            assert(before[i] <= before[j - 1]);
        } else if i > at {
            assert(before[i - 1] <= before[j - 1]);
        } else if j < at {
            assert(before[i] <= before[j]);
        } else if i == at {
            assert(before[at as int] > x);
            assert(before[at as int] <= before[j - 1]);
        }
    }
}

/// The numbers of the missing volumes of a series, in ascending order.
pub fn missing_volumes(rows: &Vec<MissingVolume>, series: u128) -> (r: Vec<i32>)
    ensures
        ascending(r@),
        r@.to_multiset() == numbers_of(rows@, series).to_multiset(),
{
    let mut numbers: Vec<i32> = Vec::new();
    let mut i: usize = 0;
    assert(numbers_of(rows@.take(0), series) =~= Seq::<i32>::empty());
    assert(numbers@ =~= Seq::<i32>::empty());
    while i < rows.len()
        invariant
            i <= rows.len(),
            ascending(numbers@),
            numbers@.to_multiset() == numbers_of(rows@.take(i as int), series).to_multiset(),
        decreases rows.len() - i,
    {
        let row = &rows[i];
        proof {
            assert(rows@.take(i + 1).drop_last() =~= rows@.take(i as int));
            assert(rows@.take(i + 1).last() == *row);
            let before = numbers_of(rows@.take(i as int), series);
            if row.series == series {
                assert(numbers_of(rows@.take(i + 1), series) =~= before.push(row.number));
                before.to_multiset_ensures();
            } else {
                assert(numbers_of(rows@.take(i + 1), series) =~= before);
            }
        }
        if row.series == series {
            insert_ascending(&mut numbers, row.number);
        }
        i += 1;
    }
    assert(rows@.take(rows.len() as int) =~= rows@);
    numbers
}

} // verus!
