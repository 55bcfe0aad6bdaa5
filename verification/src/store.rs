//! The users table: an in-process store holding the rows, with the CRUD
//! operations the service exposes. The contents are modelled as the
//! sequence of row values in insertion order; ids are unique throughout.

use vstd::prelude::*;
use crate::errors::ApiError;
use crate::errors::not_found_view;
use crate::errors::storage_error_view;
use crate::fresh::fresh_id;
use crate::fresh::now_timestamp;
use crate::model::User;
use crate::model::UserMessage;
use crate::model::UserView;

verus! {

/// The row values of a vector of rows, in order.
pub open spec fn views_of(s: Seq<User>) -> Seq<UserView> {
    s.map_values(|u: User| u@)
}

/// No two rows carry the same id.
pub open spec fn ids_unique(s: Seq<UserView>) -> bool {
    forall|i: int, j: int| 0 <= i < j < s.len() ==> s[i].id != s[j].id
}

/// Some row carries this id.
pub open spec fn has_id(s: Seq<UserView>, id: u128) -> bool {
    exists|i: int| 0 <= i < s.len() && s[i].id == id
}

/// An index of a row carrying this id (the only one, when ids are unique).
pub open spec fn index_of_id(s: Seq<UserView>, id: u128) -> int {
    choose|i: int| 0 <= i < s.len() && s[i].id == id
}

/// The row carrying this id.
pub open spec fn user_with_id(s: Seq<UserView>, id: u128) -> UserView {
    s[index_of_id(s, id)]
}

/// Some row carries this email.
pub open spec fn has_email(s: Seq<UserView>, email: Seq<char>) -> bool {
    exists|i: int| 0 <= i < s.len() && s[i].email == email
}

/// `i` is the index of the first row carrying this email.
pub open spec fn is_first_with_email(s: Seq<UserView>, email: Seq<char>, i: int) -> bool {
    0 <= i < s.len() && s[i].email == email && (forall|j: int|
        0 <= j < i ==> s[j].email != email)
}

/// The first row carrying this email.
pub open spec fn first_with_email(s: Seq<UserView>, email: Seq<char>) -> UserView {
    s[choose|i: int| is_first_with_email(s, email, i)]
}

/// The users table. Its mathematical contents are the row values in
/// insertion order; every operation keeps ids unique.
pub struct UserStore {
    users: Vec<User>,
}

impl View for UserStore {
    type V = Seq<UserView>;

    closed spec fn view(&self) -> Seq<UserView> {
        views_of(self.users@)
    }
}

impl UserStore {
    /// The store is well formed: no two rows share an id.
    pub open spec fn wf(self) -> bool {
        ids_unique(self@)
    }

    /// The view indexes the rows one for one.
    proof fn lemma_view_index(&self)
        ensures
            self@.len() == self.users@.len(),
            forall|i: int| 0 <= i < self.users@.len() ==> self@[i] == #[trigger] self.users@[i]@,
    {
    }

    /// An empty table.
    pub fn new() -> (r: UserStore)
        ensures
            r@ == Seq::<UserView>::empty(),
            r.wf(),
    {
        let store = UserStore { users: Vec::new() };
        proof {
            assert(store@ =~= Seq::<UserView>::empty());
        }
        store
    }

    /// Whether some row carries this id.
    fn contains_id(&self, id: u128) -> (b: bool)
        ensures
            b == has_id(self@, id),
    {
        let n = self.users.len();
        let mut i: usize = 0;
        while i < n
            invariant
                n == self.users.len(),
                i <= n,
                forall|j: int| 0 <= j < i ==> self@[j].id != id,
            decreases n - i,
        {
            proof {
                self.lemma_view_index();
            }
            if self.users[i].id == id {
                proof {
                    assert(self@[i as int].id == id);
                }
                return true;
            }
            i += 1;
        }
        false
    }

    /// Every row, in insertion order; the empty vector if there are none.
    pub fn get_all(&self) -> (r: Vec<User>)
        ensures
            views_of(r@) == self@,
    {
        let n = self.users.len();
        let mut out: Vec<User> = Vec::new();
        let mut i: usize = 0;
        proof {
            assert(views_of(out@) =~= self@.subrange(0, 0));
        }
        while i < n
            invariant
                n == self.users.len(),
                i <= n,
                views_of(out@) =~= self@.subrange(0, i as int),
            decreases n - i,
        {
            let ghost prev = out@;
            out.push(self.users[i].clone());
            proof {
                self.lemma_view_index();
                assert(views_of(prev).len() == i as int);
                assert(prev.len() == i as int);
                assert(out@ == prev.push(self.users@[i as int]));
                assert forall|j: int| 0 <= j < views_of(out@).len() implies #[trigger] views_of(
                    out@,
                )[j] == self@.subrange(0, i as int + 1)[j] by {
                    if j < i as int {
                        assert(views_of(out@)[j] == views_of(prev)[j]);
                    } else {
                        assert(out@[j] == self.users@[i as int]);
                    }
                }
                assert(views_of(out@) =~= self@.subrange(0, i as int + 1));
            }
            i += 1;
        }
        proof {
            assert(self@.subrange(0, n as int) =~= self@);
        }
        out
    }

    /// The row with this id, or a 404 error if no row carries it.
    pub fn get(&self, id: u128) -> (r: Result<User, ApiError>)
        requires
            self.wf(),
        ensures
            r is Ok <==> has_id(self@, id),
            r is Ok ==> r->Ok_0@ == user_with_id(self@, id) && r->Ok_0@.id == id,
            r is Err ==> r->Err_0@ == not_found_view(),
    {
        let n = self.users.len();
        let mut i: usize = 0;
        while i < n
            invariant
                n == self.users.len(),
                i <= n,
                self.wf(),
                forall|j: int| 0 <= j < i ==> self@[j].id != id,
            decreases n - i,
        {
            proof {
                self.lemma_view_index();
            }
            if self.users[i].id == id {
                let found = self.users[i].clone();
                proof {
                    assert(self@[i as int].id == id);
                    assert(has_id(self@, id));
                    let k = index_of_id(self@, id);
                    assert(0 <= k < self@.len() && self@[k].id == id);
                    assert(k == i as int) by {
                        if k < i as int {
                            assert(self@[k].id != id);
                        }
                        if k > i as int {
                            assert(self@[i as int].id != self@[k].id);
                        }
                    }
                }
                return Ok(found);
            }
            i += 1;
        }
        Err(ApiError::not_found())
    }

    /// The first row with this email, or a 404 error if no row carries
    /// it. Email uniqueness is not enforced here; under duplicates the
    /// earliest inserted row wins.
    pub fn get_by_email(&self, email: String) -> (r: Result<User, ApiError>)
        ensures
            r is Ok <==> has_email(self@, email@),
            r is Ok ==> r->Ok_0@ == first_with_email(self@, email@) && r->Ok_0@.email == email@,
            r is Ok ==> (exists|i: int| is_first_with_email(self@, email@, i)),
            r is Err ==> r->Err_0@ == not_found_view(),
    {
        let n = self.users.len();
        let mut i: usize = 0;
        while i < n
            invariant
                n == self.users.len(),
                i <= n,
                forall|j: int| 0 <= j < i ==> self@[j].email != email@,
            decreases n - i,
        {
            proof {
                self.lemma_view_index();
            }
            if self.users[i].email == email {
                let found = self.users[i].clone();
                proof {
                    assert(self@[i as int].email == email@);
                    assert(is_first_with_email(self@, email@, i as int));
                    assert(has_email(self@, email@));
                    let k = choose|k: int| is_first_with_email(self@, email@, k);
                    assert(is_first_with_email(self@, email@, k));
                    assert(k == i as int) by {
                        if k < i as int {
                            assert(self@[k].email != email@);
                        }
                        if k > i as int {
                            assert(self@[i as int].email != email@);
                        }
                    }
                }
                return Ok(found);
            }
            i += 1;
        }
        Err(ApiError::not_found())
    }

    /// Insert a new row built from the message: a fresh random id, the
    /// current time as creation time, no update time. Returns the stored
    /// row. In the one case where the drawn id already exists, the
    /// storage-level uniqueness constraint fires as a 500 error and
    /// nothing is stored; into an empty table, insertion therefore always
    /// succeeds.
    pub fn create(&mut self, msg: UserMessage) -> (r: Result<User, ApiError>)
        requires
            old(self).wf(),
        ensures
            final(self).wf(),
            old(self)@.len() == 0 ==> r is Ok,
            r is Err ==> old(self)@.len() > 0,
            r is Ok ==> !has_id(old(self)@, r->Ok_0@.id) && final(self)@ == old(self)@.push(
                r->Ok_0@,
            ),
            r is Ok ==> r->Ok_0@.email == msg@.email && r->Ok_0@.name == msg@.name
                && r->Ok_0@.password == msg@.password && r->Ok_0@.updated_at is None,
            r is Err ==> final(self)@ == old(self)@ && r->Err_0@ == storage_error_view(),
    {
        let id = fresh_id();
        let now = now_timestamp();
        if self.contains_id(id) {
            return Err(ApiError::storage_error());
        }
        let user = User::from_message(msg, id, now);
        let stored = user.clone();
        self.users.push(stored);
        proof {
            self.lemma_view_index();
            let s = old(self)@;
            let t = self@;
            assert(t =~= s.push(user@));
            assert forall|i: int, j: int| 0 <= i < j < t.len() implies t[i].id != t[j].id by {
                if j < s.len() {
                    assert(s[i].id != s[j].id);
                } else {
                    assert(t[j] == user@);
                    assert(t[i] == s[i]);
                    assert(s[i].id != id);
                }
            }
        }
        Ok(user)
    }

    /// Replace the email, name and password of the row with this id
    /// wholesale, keeping its id and timestamps, and return the updated
    /// row. Fails with a 404 error, changing nothing, if no row carries
    /// the id.
    pub fn update(&mut self, id: u128, msg: UserMessage) -> (r: Result<User, ApiError>)
        requires
            old(self).wf(),
        ensures
            final(self).wf(),
            r is Ok <==> has_id(old(self)@, id),
            r is Err ==> final(self)@ == old(self)@ && r->Err_0@ == not_found_view(),
            r is Ok ==> ({
                let i = index_of_id(old(self)@, id);
                r->Ok_0@ == (UserView {
                    id,
                    email: msg@.email,
                    name: msg@.name,
                    password: msg@.password,
                    created_at: old(self)@[i].created_at,
                    updated_at: old(self)@[i].updated_at,
                }) && final(self)@ == old(self)@.update(i, r->Ok_0@)
            }),
    {
        let n = self.users.len();
        let mut i: usize = 0;
        while i < n
            invariant
                n == self.users.len(),
                i <= n,
                old(self) == self,
                old(self).wf(),
                forall|j: int| 0 <= j < i ==> self@[j].id != id,
            decreases n - i,
        {
            proof {
                self.lemma_view_index();
            }
            if self.users[i].id == id {
                proof {
                    assert(self@ == old(self)@);
                    assert(ids_unique(self@));
                    assert(self@[i as int].id == id);
                    assert(has_id(self@, id));
                    let k = index_of_id(self@, id);
                    assert(0 <= k < self@.len() && self@[k].id == id);
                    assert(k == i as int) by {
                        if k < i as int {
                            assert(self@[k].id != id);
                        }
                        if k > i as int {
                            assert(self@[i as int].id != self@[k].id);
                        }
                    }
                }
                let created_at = self.users[i].created_at;
                let updated_at = self.users[i].updated_at;
                let updated = User {
                    id,
                    email: msg.email,
                    name: msg.name,
                    password: msg.password,
                    created_at,
                    updated_at,
                };
                let returned = updated.clone();
                self.users.remove(i);
                self.users.insert(i, updated);
                proof {
                    self.lemma_view_index();
                    let s = old(self)@;
                    let t = self@;
                    assert(t =~= s.update(i as int, returned@));
                    assert forall|p: int, q: int| 0 <= p < q < t.len() implies t[p].id
                        != t[q].id by {
                        assert(s[p].id != s[q].id);
                        if p == i as int {
                            assert(t[p].id == id && s[p].id == id);
                        }
                        if q == i as int {
                            assert(t[q].id == id && s[q].id == id);
                        }
                    }
                }
                return Ok(returned);
            }
            i += 1;
        }
        Err(ApiError::not_found())
    }

    /// Remove the row with this id and report how many rows went: 1 when
    /// the row existed, 0 when it did not. Deleting a missing id is a
    /// valid outcome, not an error: the call always succeeds.
    pub fn delete(&mut self, id: u128) -> (r: Result<usize, ApiError>)
        requires
            old(self).wf(),
        ensures
            r is Ok,
            final(self).wf(),
            !has_id(old(self)@, id) ==> r->Ok_0 == 0 && final(self)@ == old(self)@,
            has_id(old(self)@, id) ==> r->Ok_0 == 1 && final(self)@ == old(self)@.remove(
                index_of_id(old(self)@, id),
            ),
    {
        let n = self.users.len();
        let mut i: usize = 0;
        while i < n
            invariant
                n == self.users.len(),
                i <= n,
                old(self) == self,
                old(self).wf(),
                forall|j: int| 0 <= j < i ==> self@[j].id != id,
            decreases n - i,
        {
            proof {
                self.lemma_view_index();
            }
            if self.users[i].id == id {
                proof {
                    assert(self@ == old(self)@);
                    assert(ids_unique(self@));
                    assert(self@[i as int].id == id);
                    assert(has_id(self@, id));
                    let k = index_of_id(self@, id);
                    assert(0 <= k < self@.len() && self@[k].id == id);
                    assert(k == i as int) by {
                        if k < i as int {
                            assert(self@[k].id != id);
                        }
                        if k > i as int {
                            assert(self@[i as int].id != self@[k].id);
                        }
                    }
                }
                self.users.remove(i);
                proof {
                    self.lemma_view_index();
                    let s = old(self)@;
                    let t = self@;
                    assert(t =~= s.remove(i as int));
                    assert forall|p: int, q: int| 0 <= p < q < t.len() implies t[p].id
                        != t[q].id by {
                        if q < i as int {
                            assert(t[p] == s[p] && t[q] == s[q]);
                            assert(s[p].id != s[q].id);
                        } else if p < i as int {
                            assert(t[p] == s[p] && t[q] == s[q + 1]);
                            assert(s[p].id != s[q + 1].id);
                        } else {
                            assert(t[p] == s[p + 1] && t[q] == s[q + 1]);
                            assert(s[p + 1].id != s[q + 1].id);
                        }
                    }
                }
                return Ok(1);
            }
            i += 1;
        }
        Ok(0)
    }
}

/// Law: a freshly created row is found again under its returned id. When
/// a table with unique ids does not yet hold `u.id` and the row `u` is
/// appended — exactly what a successful `create` ensures — then a lookup
/// of `u.id` in the new contents yields `u` itself, and ids stay unique,
/// so `get` returns the row with the very fields `create` stored.
pub proof fn lemma_create_then_get(s: Seq<UserView>, u: UserView)
    requires
        ids_unique(s),
        !has_id(s, u.id),
    ensures
        has_id(s.push(u), u.id),
        user_with_id(s.push(u), u.id) == u,
        ids_unique(s.push(u)),
{
    let t = s.push(u);
    assert(t[s.len() as int] == u);
    assert(has_id(t, u.id));
    let k = index_of_id(t, u.id);
    assert(0 <= k < t.len() && t[k].id == u.id);
    if k < s.len() as int {
        assert(t[k] == s[k]);
        assert(has_id(s, u.id));
    }
    assert(user_with_id(t, u.id) == u);
    assert forall|i: int, j: int| 0 <= i < j < t.len() implies t[i].id != t[j].id by {
        if j < s.len() {
            assert(s[i].id != s[j].id);
        } else {
            assert(t[j] == u);
            assert(t[i] == s[i]);
            assert(s[i].id != u.id);
        }
    }
}

} // verus!
