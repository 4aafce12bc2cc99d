//! A registry object's property mapping and the identification predicate
//! that selects the single target device among all registry objects.

use vstd::prelude::*;

verus! {

/// A registry object's property mapping: string keys to string values, in
/// the order the registry reported them. The first entry with a given key
/// decides that key's value.
pub struct Properties {
    pub entries: Vec<(String, String)>,
}

impl View for Properties {
    type V = Seq<(String, String)>;

    open spec fn view(&self) -> Seq<(String, String)> {
        self.entries@
    }
}

/// The value the mapping gives a key: that of the first entry whose key
/// matches, if any.
pub open spec fn spec_lookup(entries: Seq<(String, String)>, key: Seq<char>) -> Option<Seq<char>>
    decreases entries.len(),
{
    if entries.len() == 0 {
        None
    } else if entries[0].0@ == key {
        Some(entries[0].1@)
    } else {
        spec_lookup(entries.drop_first(), key)
    }
}

impl Properties {
    /// Look a key up in the mapping.
    pub fn get<'a>(&'a self, key: &String) -> (value: Option<&'a String>)
        ensures
            match value {
                Some(v) => spec_lookup(self@, key@) == Some(v@),
                None => spec_lookup(self@, key@) is None,
            },
    {
        let n: usize = self.entries.len();
        let mut i: usize = 0;
        proof {
            assert(self@.skip(0) =~= self@);
        }
        while i < n
            invariant
                n == self.entries.len(),
                i <= n,
                spec_lookup(self@, key@) == spec_lookup(self@.skip(i as int), key@),
            decreases n - i,
        {
            proof {
                assert(self@.skip(i as int)[0] == self@[i as int]);
                assert(self@.skip(i as int).drop_first() =~= self@.skip(i as int + 1));
            }
            if self.entries[i].0 == *key {
                return Some(&self.entries[i].1);
            }
            i += 1;
        }
        proof {
            assert(self@.skip(n as int) =~= Seq::<(String, String)>::empty());
        }
        None
    }
}

/// The identification predicate: the mapping names the target role,
/// placement and product, all three exactly.
pub open spec fn spec_is_target(entries: Seq<(String, String)>) -> bool {
    &&& spec_lookup(entries, "media.role"@) == Some("Camera"@)
    &&& spec_lookup(entries, "api.libcamera.location"@) == Some("front"@)
    &&& spec_lookup(entries, "device.product.name"@) == Some("ov5675"@)
}

/// Decide whether a registry object's properties identify it as the target
/// device. A mapping that lacks any of the three fields, or whose values
/// differ, is a routine negative result, never an error.
pub fn is_target(props: &Properties) -> (matched: bool)
    ensures
        matched == spec_is_target(props@),
{
    let role_ok: bool = match props.get(&"media.role".to_owned()) {
        Some(v) => *v == "Camera".to_owned(),
        None => false,
    };
    let placement_ok: bool = match props.get(&"api.libcamera.location".to_owned()) {
        Some(v) => *v == "front".to_owned(),
        None => false,
    };
    let product_ok: bool = match props.get(&"device.product.name".to_owned()) {
        Some(v) => *v == "ov5675".to_owned(),
        None => false,
    };
    role_ok && placement_ok && product_ok
}

} // verus!
