//! The protected routes' decision core. Each operation consults the
//! caller's session identity first and touches the table only when one is
//! present: an anonymous caller is turned away with the uniform 401
//! before any lookup, whatever the table holds, so resource existence
//! cannot be probed while signed out.

use vstd::prelude::*;
use crate::auth::Session;
use crate::errors::ApiError;
use crate::errors::not_found_view;
use crate::errors::unauthorized_view;
use crate::model::User;
use crate::model::UserMessage;
use crate::model::UserView;
use crate::store::UserStore;
use crate::store::has_id;
use crate::store::index_of_id;
use crate::store::user_with_id;
use crate::store::views_of;

verus! {

/// List every user — with a session; without one, 401 and no lookup.
pub fn find_all(session: &Session, store: &UserStore) -> (r: Result<Vec<User>, ApiError>)
    ensures
        session is Anonymous ==> r is Err && r->Err_0@ == unauthorized_view(),
        session is Authenticated ==> r is Ok && views_of(r->Ok_0@) == store@,
{
    match *session {
        Session::Anonymous => Err(ApiError::unauthorized()),
        Session::Authenticated { .. } => Ok(store.get_all()),
    }
}

/// Fetch one user by id — with a session; without one, 401 before any
/// lookup, whether or not the row exists.
pub fn find(session: &Session, store: &UserStore, id: u128) -> (r: Result<User, ApiError>)
    requires
        store.wf(),
    ensures
        session is Anonymous ==> r is Err && r->Err_0@ == unauthorized_view(),
        session is Authenticated ==> {
            &&& r is Ok <==> has_id(store@, id)
            &&& r is Ok ==> r->Ok_0@ == user_with_id(store@, id)
            &&& r is Err ==> r->Err_0@ == not_found_view()
        },
{
    match *session {
        Session::Anonymous => Err(ApiError::unauthorized()),
        Session::Authenticated { .. } => store.get(id),
    }
}

/// Replace a user's fields by id — with a session; without one, 401 and
/// the table untouched, whether or not the row exists.
pub fn update(session: &Session, store: &mut UserStore, id: u128, msg: UserMessage) -> (r: Result<
    User,
    ApiError,
>)
    requires
        old(store).wf(),
    ensures
        final(store).wf(),
        session is Anonymous ==> r is Err && r->Err_0@ == unauthorized_view() && final(store)@
            == old(store)@,
        session is Authenticated ==> {
            &&& r is Ok <==> has_id(old(store)@, id)
            &&& r is Err ==> final(store)@ == old(store)@ && r->Err_0@ == not_found_view()
            &&& r is Ok ==> ({
                let i = index_of_id(old(store)@, id);
                r->Ok_0@ == (UserView {
                    id,
                    email: msg@.email,
                    name: msg@.name,
                    password: msg@.password,
                    created_at: old(store)@[i].created_at,
                    updated_at: old(store)@[i].updated_at,
                }) && final(store)@ == old(store)@.update(i, r->Ok_0@)
            })
        },
{
    match *session {
        Session::Anonymous => Err(ApiError::unauthorized()),
        Session::Authenticated { .. } => store.update(id, msg),
    }
}

/// Delete a user by id — with a session; without one, 401 and the table
/// untouched. With one, the call always succeeds and reports how many
/// rows went: 0 or 1.
pub fn delete(session: &Session, store: &mut UserStore, id: u128) -> (r: Result<usize, ApiError>)
    requires
        old(store).wf(),
    ensures
        final(store).wf(),
        session is Anonymous ==> r is Err && r->Err_0@ == unauthorized_view() && final(store)@
            == old(store)@,
        session is Authenticated ==> {
            &&& r is Ok
            &&& !has_id(old(store)@, id) ==> r->Ok_0 == 0 && final(store)@ == old(store)@
            &&& has_id(old(store)@, id) ==> r->Ok_0 == 1 && final(store)@ == old(store)@.remove(
                index_of_id(old(store)@, id),
            )
        },
{
    match *session {
        Session::Anonymous => Err(ApiError::unauthorized()),
        Session::Authenticated { .. } => store.delete(id),
    }
}

/// Law: protected access without a session is uniform. The 401 an
/// anonymous caller gets for an existing resource and the 401 it gets for
/// a missing one are the same value, so the response reveals nothing
/// about what the table holds: the authorization check precedes the
/// lookup.
pub proof fn lemma_unauthorized_uniform(err_row_present: ApiError, err_row_absent: ApiError)
    requires
        err_row_present@ == unauthorized_view(),
        err_row_absent@ == unauthorized_view(),
    ensures
        err_row_present@ == err_row_absent@,
{
}

} // verus!
