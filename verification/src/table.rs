use vstd::prelude::*;
use crate::address::Address;
use crate::state::VaultState;

verus! {

/// A vault's state record together with the address it is stored at.
#[derive(Debug, Clone, Copy, PartialEq, Eq)]
pub struct VaultAccount {
    pub address: Address,
    pub state: VaultState,
}

/// The stored vault records, at most one per owner.
pub struct VaultTable {
    rows: Vec<VaultAccount>,
}

/// Whether row `i` of `rows` belongs to `owner`.
pub open spec fn owned_row(rows: Seq<VaultAccount>, owner: Seq<u8>, i: int) -> bool {
    0 <= i < rows.len() && rows[i].state.owner@ == owner
}

impl VaultTable {
    /// No owner occurs in two rows.
    pub closed spec fn wf(&self) -> bool {
        forall|i: int, j: int|
            0 <= i < j < self.rows@.len() ==> self.rows@[i].state.owner@ != self.rows@[j].state.owner@
    }

    /// The record stored for `owner`, if any.
    pub closed spec fn get(&self, owner: Seq<u8>) -> Option<VaultAccount> {
        if exists|i: int| owned_row(self.rows@, owner, i) {
            Some(self.rows@[choose|i: int| owned_row(self.rows@, owner, i)])
        } else {
            None
        }
    }

    proof fn lemma_get_at(&self, i: int)
        requires
            self.wf(),
            0 <= i < self.rows@.len(),
        ensures
            self.get(self.rows@[i].state.owner@) == Some(self.rows@[i]),
    {
        assert(owned_row(self.rows@, self.rows@[i].state.owner@, i));
    }

    /// A table without records.
    pub fn new() -> (t: VaultTable)
        ensures
            t.wf(),
            forall|o: Seq<u8>| #[trigger] t.get(o) is None,
    {
        VaultTable { rows: Vec::new() }
    }

    fn position(&self, owner: &Address) -> (r: Option<usize>)
        ensures
            match r {
                Some(i) => owned_row(self.rows@, owner@, i as int),
                None => forall|j: int| !owned_row(self.rows@, owner@, j),
            },
    {
        let mut i: usize = 0;
        while i < self.rows.len()
            invariant
                i <= self.rows@.len(),
                forall|j: int| 0 <= j < i ==> self.rows@[j].state.owner@ != owner@,
            decreases self.rows@.len() - i,
        {
            if self.rows[i].state.owner.same(owner) {
                return Some(i);
            }
            i += 1;
        }
        None
    }

    /// A record is stored under the owner that it names.
    pub proof fn lemma_keyed_by_owner(&self, owner: Seq<u8>)
        ensures
            self.get(owner) matches Some(account) ==> account.state.owner@ == owner,
    {
    }

    /// The record stored for `owner`, if any.
    pub fn lookup(&self, owner: &Address) -> (r: Option<VaultAccount>)
        requires
            self.wf(),
        ensures
            r == self.get(owner@),
            r matches Some(account) ==> account.state.owner@ == owner@,
    {
        match self.position(owner) {
            Some(i) => {
                proof {
                    self.lemma_get_at(i as int);
                }
                Some(self.rows[i])
            },
            None => None,
        }
    }

    /// Stores `account` as the record of its owner, in place of any earlier one.
    pub fn store(&mut self, account: VaultAccount)
        requires
            old(self).wf(),
        ensures
            final(self).wf(),
            forall|o: Seq<u8>| #[trigger]
                final(self).get(o) == (if o == account.state.owner@ {
                    Some(account)
                } else {
                    old(self).get(o)
                }),
    {
        let ghost before = *self;
        let at = self.position(&account.state.owner);
        match at {
            Some(i) => {
                self.rows.set(i, account);
            },
            None => {
                self.rows.push(account);
            },
        }
        proof {
            let rows = self.rows@;
            let prev = before.rows@;
            let mine = account.state.owner@;
            let k: int = match at {
                Some(i) => i as int,
                None => prev.len() as int,
            };
            assert(owned_row(rows, mine, k));
            assert(forall|j: int| 0 <= j < prev.len() && j != k ==> rows[j] == prev[j]);
            assert forall|j: int| 0 <= j < prev.len() && j != k implies prev[j].state.owner@ != mine by {
                if at is None {
                    assert(!owned_row(prev, mine, j));
                }
            }
            assert(self.wf());
            self.lemma_get_at(k);
            assert forall|o: Seq<u8>| o != mine implies #[trigger] self.get(o) == before.get(o) by {
                if exists|i: int| owned_row(prev, o, i) {
                    let i = choose|i: int| owned_row(prev, o, i);
                    assert(owned_row(rows, o, i));
                    self.lemma_get_at(i);
                    before.lemma_get_at(i);
                } else if exists|i: int| owned_row(rows, o, i) {
                    let i = choose|i: int| owned_row(rows, o, i);
                    assert(owned_row(prev, o, i));
                }
            }
        }
    }

    /// Removes the record of `owner`, if one is stored.
    pub fn destroy(&mut self, owner: &Address)
        requires
            old(self).wf(),
        ensures
            final(self).wf(),
            forall|o: Seq<u8>| #[trigger]
                final(self).get(o) == (if o == owner@ {
                    None
                } else {
                    old(self).get(o)
                }),
    {
        let ghost before = *self;
        match self.position(owner) {
            Some(i) => {
                let _ = self.rows.remove(i);
                proof {
                    let rows = self.rows@;
                    let prev = before.rows@;
                    let k = i as int;
                    assert(forall|j: int| 0 <= j < k ==> rows[j] == prev[j]);
                    assert(forall|j: int| k <= j < rows.len() ==> rows[j] == prev[j + 1]);
                    assert(self.wf());
                    assert forall|o: Seq<u8>| #[trigger]
                        self.get(o) == (if o == owner@ {
                            None
                        } else {
                            before.get(o)
                        }) by {
                        if exists|q: int| owned_row(rows, o, q) {
                            let q = choose|q: int| owned_row(rows, o, q);
                            self.lemma_get_at(q);
                            if q < k {
                                assert(owned_row(prev, o, q));
                                before.lemma_get_at(q);
                            } else {
                                assert(owned_row(prev, o, q + 1));
                                before.lemma_get_at(q + 1);
                            }
                        } else if o != owner@ {
                            if exists|p: int| owned_row(prev, o, p) {
                                let p = choose|p: int| owned_row(prev, o, p);
                                if p < k {
                                    assert(owned_row(rows, o, p));
                                } else {
                                    assert(owned_row(rows, o, p - 1));
                                }
                            }
                        }
                    }
                }
            },
            None => {},
        }
    }
}

} // verus!
