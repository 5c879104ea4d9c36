use vstd::prelude::*;

verus! {

/// The amount of the last row of `rows` whose user id is `id`, if any.
pub open spec fn amount_in(rows: Seq<(String, i64)>, id: Seq<char>) -> Option<i64>
    decreases rows.len(),
{
    if rows.len() == 0 {
        None
    } else if rows.last().0@ == id {
        Some(rows.last().1)
    } else {
        amount_in(rows.drop_last(), id)
    }
}

/// The credit rows fetched for one batch of user ids. A later row for the
/// same id replaces an earlier one; an id without a row has no amount.
pub struct CreditBatch {
    rows: Vec<(String, i64)>,
}

impl CreditBatch {
    /// The rows, in the order they were fetched.
    pub closed spec fn rows(&self) -> Seq<(String, i64)> {
        self.rows@
    }

    /// The amount held for `id` in this batch.
    pub open spec fn amount_of(&self, id: Seq<char>) -> Option<i64> {
        amount_in(self.rows(), id)
    }

    /// A batch made of fetched `(user_id, amount)` rows.
    pub fn from_rows(rows: Vec<(String, i64)>) -> (r: CreditBatch)
        ensures
            r.rows() == rows@,
    {
        CreditBatch { rows }
    }

    /// The amount held for `id`: that of the last row for it, or none when no
    /// row has that id.
    pub fn get(&self, id: &String) -> (r: Option<i64>)
        ensures
            r == self.amount_of(id@),
    {
        let mut found: Option<i64> = None;
        let mut i: usize = 0;
        while i < self.rows.len()
            invariant
                i <= self.rows@.len(),
                found == amount_in(self.rows@.subrange(0, i as int), id@),
            decreases self.rows@.len() - i,
        {
            assert(self.rows@.subrange(0, i + 1).drop_last() =~= self.rows@.subrange(0, i as int));
            if self.rows[i].0 == *id {
                found = Some(self.rows[i].1);
            }
            i = i + 1;
        }
        assert(self.rows@.subrange(0, self.rows@.len() as int) =~= self.rows@);
        found
    }
}

} // verus!
