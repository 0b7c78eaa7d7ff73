use vstd::prelude::*;

use crate::error::Error;

verus! {

/// A user of a project: an id, the public key that identifies them, and a
/// display name.
#[derive(Debug)]
pub struct User {
    pub uid: u32,
    pub public_key: String,
    pub name: String,
}

/// Whether some user of `users` holds `public_key` or is called `name`.
pub open spec fn user_clash(users: Seq<User>, public_key: Seq<char>, name: Seq<char>) -> bool {
    exists|i: int|
        0 <= i < users.len() && ((#[trigger] users[i]).public_key@ == public_key || users[i].name@
            == name)
}

/// The users of one project. Ids are assigned on creation, from 1 upwards;
/// no two users share a public key or a display name.
pub struct UserStore {
    users: Vec<User>,
}

impl View for UserStore {
    type V = Seq<User>;

    closed spec fn view(&self) -> Seq<User> {
        self.users@
    }
}

impl UserStore {
    /// Ids follow the order of creation; keys and names are unique.
    pub closed spec fn wf(&self) -> bool {
        &&& forall|i: int| 0 <= i < self.users@.len() ==> (#[trigger] self.users@[i]).uid == i + 1
        &&& forall|i: int, j: int|
            0 <= i < j < self.users@.len() ==> (#[trigger] self.users@[i]).public_key@
                != (#[trigger] self.users@[j]).public_key@ && self.users@[i].name@
                != self.users@[j].name@
    }

    /// An empty store.
    pub fn new() -> (r: UserStore)
        ensures
            r.wf(),
            r@ == Seq::<User>::empty(),
    {
        UserStore { users: Vec::new() }
    }

    /// Creates a user with the next id and returns it; refuses a public key
    /// or a name already taken with `DuplicateUser(key, name)`, and then
    /// changes nothing.
    pub fn add_user(&mut self, public_key: String, name: String) -> (r: Result<u32, Error>)
        requires
            old(self).wf(),
            old(self)@.len() < u32::MAX,
        ensures
            final(self).wf(),
            r is Ok <==> !user_clash(old(self)@, public_key@, name@),
            r matches Err(e) ==> final(self)@ == old(self)@ && e == Error::DuplicateUser(
                public_key,
                name,
            ),
            r matches Ok(uid) ==> uid == old(self)@.len() + 1 && final(self)@ == old(self)@.push(
                User { uid, public_key, name },
            ),
    {
        let mut i: usize = 0;
        while i < self.users.len()
            invariant
                0 <= i <= self.users@.len(),
                self.wf(),
                self@ == old(self)@,
                forall|j: int|
                    0 <= j < i ==> (#[trigger] self.users@[j]).public_key@ != public_key@
                        && self.users@[j].name@ != name@,
            decreases self.users.len() - i,
        {
            if self.users[i].public_key == public_key || self.users[i].name == name {
                assert(self.users@[i as int].public_key@ == public_key@ || self.users@[i as int].name@
                    == name@);
                return Err(Error::DuplicateUser(public_key, name));
            }
            i = i + 1;
        }
        let uid: u32 = (self.users.len() + 1) as u32;
        self.users.push(User { uid, public_key, name });
        Ok(uid)
    }

    /// The id of the user who holds `public_key`.
    pub fn get_user_id(&self, public_key: &String) -> (r: Result<u32, Error>)
        requires
            self.wf(),
        ensures
            r is Ok <==> exists|i: int|
                0 <= i < self@.len() && (#[trigger] self@[i]).public_key@ == public_key@,
            r matches Ok(uid) ==> 1 <= uid <= self@.len() && self@[uid - 1].public_key@
                == public_key@,
            r matches Err(e) ==> e == Error::UserNotFound,
    {
        let mut i: usize = 0;
        while i < self.users.len()
            invariant
                0 <= i <= self.users@.len(),
                self.wf(),
                forall|j: int| 0 <= j < i ==> (#[trigger] self.users@[j]).public_key@ != public_key@,
            decreases self.users.len() - i,
        {
            if self.users[i].public_key == *public_key {
                assert(self@[i as int] == self.users@[i as int]);
                return Ok(self.users[i].uid);
            }
            i = i + 1;
        }
        Err(Error::UserNotFound)
    }
}

} // verus!
