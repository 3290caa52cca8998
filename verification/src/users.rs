use vstd::prelude::*;
use vstd::string::*;

use crate::codecs::{principal_text, render_principal};
use crate::keyed::{
    distinct_keys, keyed_map, lemma_distinct_after_push, lemma_keyed_map,
};

verus! {

/// What is known of a registered user.
pub struct UserInfo {
    pub first_name: String,
    pub last_name: String,
}

impl Clone for UserInfo {
    fn clone(&self) -> (r: Self)
        ensures
            r == *self,
    {
        UserInfo { first_name: self.first_name.clone(), last_name: self.last_name.clone() }
    }
}

/// Registered users, keyed by the bytes of their principal.
pub struct UserDirectory {
    entries: Vec<(Vec<u8>, UserInfo)>,
}

impl View for UserDirectory {
    type V = Map<Seq<u8>, UserInfo>;

    closed spec fn view(&self) -> Map<Seq<u8>, UserInfo> {
        keyed_map(self.entries@)
    }
}

/// Whether two byte strings are equal.
fn same_bytes(a: &[u8], b: &[u8]) -> (r: bool)
    ensures
        r == (a@ == b@),
{
    if a.len() != b.len() {
        return false;
    }
    let mut i: usize = 0;
    while i < a.len()
        invariant
            a@.len() == b@.len(),
            i <= a@.len(),
            forall|j: int| 0 <= j < i ==> a@[j] == b@[j],
        decreases a@.len() - i,
    {
        if a[i] != b[i] {
            return false;
        }
        i = i + 1;
    }
    assert(a@ =~= b@);
    true
}

impl UserDirectory {
    /// No principal is listed twice.
    pub closed spec fn wf(&self) -> bool {
        distinct_keys(self.entries@)
    }

    /// A directory with no user.
    pub fn new() -> (d: UserDirectory)
        ensures
            d.wf(),
            d@ == Map::<Seq<u8>, UserInfo>::empty(),
    {
        UserDirectory { entries: Vec::new() }
    }

    /// The position of `principal` in the list, if it is listed.
    fn position(&self, principal: &[u8]) -> (r: Option<usize>)
        ensures
            match r {
                Some(i) => i < self.entries@.len() && self.entries@[i as int].0@ == principal@,
                None => forall|i: int|
                    0 <= i < self.entries@.len() ==> self.entries@[i].0@ != principal@,
            },
    {
        let mut i: usize = 0;
        while i < self.entries.len()
            invariant
                i <= self.entries@.len(),
                forall|j: int| 0 <= j < i ==> self.entries@[j].0@ != principal@,
            decreases self.entries@.len() - i,
        {
            if same_bytes(self.entries[i].0.as_slice(), principal) {
                return Some(i);
            }
            i = i + 1;
        }
        None
    }

    /// Registers the user with this principal (its bytes, at most 29 of
    /// them) and names.  A principal already registered is refused with
    /// "User with principal <principal> already exists", and the directory
    /// stays as it was.
    pub fn register_user(&mut self, principal: &[u8], first_name: String, last_name: String) -> (r:
        Result<(), String>)
        requires
            old(self).wf(),
            principal@.len() <= 29,
        ensures
            final(self).wf(),
            if old(self)@.contains_key(principal@) {
                &&& r matches Err(m) && m@ == "User with principal "@ + principal_text(principal@)
                    + " already exists"@
                &&& final(self)@ == old(self)@
            } else {
                &&& r is Ok
                &&& final(self)@ == old(self)@.insert(principal@, UserInfo { first_name, last_name })
            },
    {
        proof {
            lemma_keyed_map(self.entries@);
        }
        match self.position(principal) {
            Some(_) => Err(
                String::from_str("User with principal ").concat(
                    render_principal(principal).as_str(),
                ).concat(" already exists"),
            ),
            None => {
                let entry = (vstd::slice::slice_to_vec(principal), UserInfo { first_name, last_name });
                assert(entry.0@ == principal@);
                proof {
                    lemma_distinct_after_push(self.entries@, entry);
                }
                self.entries.push(entry);
                Ok(())
            },
        }
    }

    /// The user registered with this principal, if any.
    pub fn get_user(&self, principal: &[u8]) -> (r: Option<UserInfo>)
        requires
            self.wf(),
        ensures
            r == (if self@.contains_key(principal@) {
                Some(self@[principal@])
            } else {
                None
            }),
    {
        proof {
            lemma_keyed_map(self.entries@);
        }
        match self.position(principal) {
            Some(i) => Some(self.entries[i].1.clone()),
            None => None,
        }
    }

    /// Whether a user is registered with this principal.
    pub fn user_exists(&self, principal: &[u8]) -> (r: bool)
        requires
            self.wf(),
        ensures
            r == self@.contains_key(principal@),
    {
        proof {
            lemma_keyed_map(self.entries@);
        }
        self.position(principal).is_some()
    }
}

/// A first registration of a principal makes it exist, with the names it was
/// registered with, and leaves every other principal as it was.
pub proof fn law_registered_user_found(before: Map<Seq<u8>, UserInfo>, principal: Seq<u8>, info: UserInfo)
    requires
        !before.contains_key(principal),
    ensures
        ({
            let after = before.insert(principal, info);
            &&& after.contains_key(principal)
            &&& after[principal] == info
            &&& forall|other: Seq<u8>|
                other != principal ==> (after.contains_key(other) == before.contains_key(other) && (
                before.contains_key(other) ==> after[other] == before[other]))
        }),
{
}

} // verus!
