//! The dispatch layer's routing rule.
//!
//! Higher-level servers name their handlers "service.method".  A
//! request routes only when its action is a string containing a dot:
//! the bytes before the first dot name the service, the bytes after it
//! the method.  Anything else is refused, which makes the reader send a
//! `Decode` error response for the request's seq.

use vstd::prelude::*;
use vstd::slice::{slice_index_get, slice_subrange, slice_to_vec};
use crate::proto::RpcAction;

verus! {

/// The byte that separates the service name from the method name.
pub const ACTION_DOT: u8 = 0x2e;

/// Splits an action string at its first dot: `None` exactly when there
/// is no dot; otherwise the service is everything before the first dot
/// and the method everything after it.
pub fn split_service_method(action: &[u8]) -> (r: Option<(Vec<u8>, Vec<u8>)>)
    ensures
        r is None ==> forall|i: int| 0 <= i < action@.len() ==> action@[i] != ACTION_DOT,
        r matches Some((svc, meth)) ==> exists|i: int|
            {
                &&& 0 <= i < action@.len()
                &&& action@[i] == ACTION_DOT
                &&& forall|j: int| 0 <= j < i ==> action@[j] != ACTION_DOT
                &&& svc@ == action@.subrange(0, i)
                &&& meth@ == action@.subrange(i + 1, action@.len() as int)
            },
{
    let mut i: usize = 0;
    while i < action.len()
        invariant
            i <= action@.len(),
            forall|j: int| 0 <= j < i ==> action@[j] != ACTION_DOT,
        decreases action@.len() - i,
    {
        if *slice_index_get(action, i) == ACTION_DOT {
            let svc = slice_to_vec(slice_subrange(action, 0, i));
            let meth = slice_to_vec(slice_subrange(action, i + 1, action.len()));
            return Some((svc, meth));
        }
        i = i + 1;
    }
    None
}

/// The API dispatcher's gate: a request routes exactly when its action
/// is a string with a dot in it.  The service and method names come
/// back as byte strings; a `None` makes the reader emit a `Decode`
/// error response.
pub fn api_dispatch_route(action: &RpcAction) -> (r: Option<(Vec<u8>, Vec<u8>)>)
    ensures
        action matches RpcAction::Num(_) ==> r is None,
        action matches RpcAction::Str(s) ==> {
            &&& (r is None ==> forall|i: int| 0 <= i < s@.len() ==> s@[i] != ACTION_DOT)
            &&& (r matches Some((svc, meth)) ==> exists|i: int|
                {
                    &&& 0 <= i < s@.len()
                    &&& s@[i] == ACTION_DOT
                    &&& forall|j: int| 0 <= j < i ==> s@[j] != ACTION_DOT
                    &&& svc@ == s@.subrange(0, i)
                    &&& meth@ == s@.subrange(i + 1, s@.len() as int)
                })
        },
{
    match action {
        RpcAction::Num(_) => None,
        RpcAction::Str(s) => split_service_method(s.as_slice()),
    }
}

} // verus!
