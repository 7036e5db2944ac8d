use vstd::prelude::*;

verus! {

/// One discovery result, read once after the scan window.
#[derive(Debug)]
pub struct PeripheralRecord {
    /// The advertised name, if the peripheral advertised one.
    pub local_name: Option<String>,
    /// The hardware address, least significant byte first.
    pub address: [u8; 6],
}

/// The name shown for a record: its advertised name, or the empty string.
pub open spec fn shown_name(local_name: Option<String>) -> Seq<char> {
    match local_name {
        Some(name) => name@,
        None => Seq::empty(),
    }
}

impl PeripheralRecord {
    pub fn new(local_name: Option<String>, address: [u8; 6]) -> (r: Self)
        ensures
            r.local_name == local_name,
            r.address == address,
    {
        PeripheralRecord { local_name, address }
    }

    /// The name to show for this record; a record without an advertised
    /// name shows as the empty string.
    pub fn display_name(&self) -> (r: &str)
        ensures
            r@ == shown_name(self.local_name),
            self.local_name is None ==> r@.len() == 0,
    {
        match &self.local_name {
            Some(name) => name.as_str(),
            None => {
                let empty = "";
                proof {
                    reveal_strlit("");
                }
                empty
            },
        }
    }
}

} // verus!
