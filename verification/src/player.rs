use vstd::prelude::*;

use crate::errors::Errcode;

verus! {

/// Identifier of a player.
pub type PlayerId = u16;

/// The secret key that authenticates a player.
pub type PlayerKey = [u8; 128];

/// A request to create a new player.
#[derive(Debug, Clone)]
pub struct ReqNewPlayer {
    pub name: String,
}

/// Accepts `name` for a new player unless one of the names in `taken`
/// is the same text.
pub fn check_name_free(name: String, taken: &Vec<String>) -> (r: Result<String, Errcode>)
    ensures
        (exists|i: int| 0 <= i < taken@.len() && (#[trigger] taken@[i])@ == name@) ==> r
            == Err::<String, Errcode>(Errcode::PlayerAlreadyExists(name)),
        !(exists|i: int| 0 <= i < taken@.len() && (#[trigger] taken@[i])@ == name@) ==> r == Ok::<
            String,
            Errcode,
        >(name),
{
    let mut i: usize = 0;
    while i < taken.len()
        invariant
            i <= taken@.len(),
            forall|j: int| 0 <= j < i ==> (#[trigger] taken@[j])@ != name@,
        decreases taken@.len() - i,
    {
        if name == taken[i] {
            return Err(Errcode::PlayerAlreadyExists(name));
        }
        i = i + 1;
    }
    Ok(name)
}

} // verus!
