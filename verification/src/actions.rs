//! The action-execution service's verifiable surface: the mapping from
//! key names to platform key codes.
//!
//! Sending the input events themselves is platform work and lives in the
//! surrounding application; on platforms without an injection backend the
//! operations report `UnsupportedPlatform`, as the service does here.

use crate::errors::ActionError;
use vstd::prelude::*;

verus! {

/// Executes primitive input actions; holds the key-name to key-code map.
#[derive(Debug)]
pub struct ActionService {
    key_map: Vec<(String, u16)>,
}

impl ActionService {
    /// The name-to-code bindings, in insertion order.
    pub closed spec fn view(self) -> Seq<(String, u16)> {
        self.key_map@
    }

    /// A service with the stock key map: space, delete, escape, the F
    /// key, and the digit keys 1 to 4, bound to their virtual key codes.
    pub fn new() -> (s: Self)
        ensures
            s@.len() == 8,
            s@[0].0@ == "Space"@ && s@[0].1 == 0x20,
            s@[1].0@ == "Delete"@ && s@[1].1 == 0x2E,
            s@[2].0@ == "Escape"@ && s@[2].1 == 0x1B,
            s@[3].0@ == "F"@ && s@[3].1 == 0x46,
            s@[4].0@ == "1"@ && s@[4].1 == 0x31,
            s@[5].0@ == "2"@ && s@[5].1 == 0x32,
            s@[6].0@ == "3"@ && s@[6].1 == 0x33,
            s@[7].0@ == "4"@ && s@[7].1 == 0x34,
    {
        let mut key_map: Vec<(String, u16)> = Vec::new();
        key_map.push(("Space".to_owned(), 0x20));
        key_map.push(("Delete".to_owned(), 0x2E));
        key_map.push(("Escape".to_owned(), 0x1B));
        key_map.push(("F".to_owned(), 0x46));
        key_map.push(("1".to_owned(), 0x31));
        key_map.push(("2".to_owned(), 0x32));
        key_map.push(("3".to_owned(), 0x33));
        key_map.push(("4".to_owned(), 0x34));
        ActionService { key_map }
    }

    /// The code bound to the key name, if any binding exists.
    pub fn key_code(&self, key: &str) -> (r: Option<u16>)
        ensures
            r is Some <==> exists|i: int|
                0 <= i < self@.len() && (#[trigger] self@[i]).0@ == key@,
            r matches Some(c) ==> exists|i: int|
                0 <= i < self@.len() && (#[trigger] self@[i]).0@ == key@ && self@[i].1 == c,
    {
        let k = key.to_owned();
        let n = self.key_map.len();
        let mut i: usize = 0;
        while i < n
            invariant
                n == self.key_map@.len(),
                i <= n,
                k@ == key@,
                forall|j: int| 0 <= j < i ==> (#[trigger] self.key_map@[j]).0@ != k@,
            decreases n - i,
        {
            if self.key_map[i].0 == k {
                proof {
                    assert((self@[i as int]).0@ == key@);
                }
                return Some(self.key_map[i].1);
            }
            i = i + 1;
        }
        None
    }

    /// Append a binding of a key name to a code.  Lookup returns the
    /// earliest binding of a name, so appending a duplicate name does not
    /// change what lookups see.
    pub fn add_key_mapping(&mut self, key: String, vk_code: u16)
        ensures
            final(self)@ == old(self)@.push((key, vk_code)),
    {
        self.key_map.push((key, vk_code));
    }

    /// Every bound key name, in insertion order.
    pub fn get_supported_keys(&self) -> (r: Vec<String>)
        ensures
            r@.len() == self@.len(),
            forall|i: int| 0 <= i < r@.len() ==> (#[trigger] r@[i])@ == self@[i].0@,
    {
        let n = self.key_map.len();
        let mut out: Vec<String> = Vec::new();
        let mut i: usize = 0;
        while i < n
            invariant
                n == self.key_map@.len(),
                i <= n,
                out@.len() == i,
                forall|j: int| 0 <= j < i ==> (#[trigger] out@[j])@ == self.key_map@[j].0@,
            decreases n - i,
        {
            out.push(self.key_map[i].0.clone());
            i = i + 1;
        }
        out
    }

    /// Where the pointer is.  No injection backend is linked into the
    /// library, so the query reports the platform as unsupported; the
    /// surrounding application answers it through the operating system.
    pub fn get_cursor_position(&self) -> (r: Result<(i32, i32), ActionError>)
        ensures
            r matches Err(e) && e is UnsupportedPlatform,
    {
        Err(ActionError::unsupported_platform("cursor queries need a platform backend"))
    }
}

impl Default for ActionService {
    fn default() -> (s: Self)
        ensures
            s@.len() == 8,
    {
        ActionService::new()
    }
}

} // verus!
