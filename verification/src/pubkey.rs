use vstd::prelude::*;

verus! {

/// A fixed-size public identifier of an account or of a program.
#[derive(Clone, Copy, Debug, Eq, Hash)]
pub struct Pubkey {
    pub bytes: [u8; 32],
}

impl PartialEq for Pubkey {
    /// Two identifiers are equal exactly when all of their bytes are.
    fn eq(&self, other: &Pubkey) -> (equal: bool) {
        let mut i: usize = 0;
        while i < 32
            invariant
                i <= 32,
                forall|k: int| 0 <= k < i ==> self.bytes[k] == other.bytes[k],
            decreases 32 - i,
        {
            if self.bytes[i] != other.bytes[i] {
                return false;
            }
            i += 1;
        }
        assert(self.bytes =~= other.bytes);
        true
    }
}

impl vstd::std_specs::cmp::PartialEqSpecImpl for Pubkey {
    open spec fn obeys_eq_spec() -> bool {
        true
    }

    open spec fn eq_spec(&self, other: &Pubkey) -> bool {
        *self == *other
    }
}

/// The identifier of the system program: thirty-two zero bytes.
pub open spec fn spec_system_program_id() -> Pubkey {
    Pubkey {
        bytes: [
            0u8, 0u8, 0u8, 0u8, 0u8, 0u8, 0u8, 0u8,
            0u8, 0u8, 0u8, 0u8, 0u8, 0u8, 0u8, 0u8,
            0u8, 0u8, 0u8, 0u8, 0u8, 0u8, 0u8, 0u8,
            0u8, 0u8, 0u8, 0u8, 0u8, 0u8, 0u8, 0u8,
        ],
    }
}

/// The identifier of the system program, which owns every plain
/// balance-holding account and handles transfers.
#[verifier::when_used_as_spec(spec_system_program_id)]
pub fn system_program_id() -> (id: Pubkey)
    ensures
        id == spec_system_program_id(),
{
    Pubkey {
        bytes: [
            0u8, 0u8, 0u8, 0u8, 0u8, 0u8, 0u8, 0u8,
            0u8, 0u8, 0u8, 0u8, 0u8, 0u8, 0u8, 0u8,
            0u8, 0u8, 0u8, 0u8, 0u8, 0u8, 0u8, 0u8,
            0u8, 0u8, 0u8, 0u8, 0u8, 0u8, 0u8, 0u8,
        ],
    }
}

/// The identifier of the native loader.
pub open spec fn spec_native_loader_id() -> Pubkey {
    Pubkey {
        bytes: [
            5u8, 135u8, 132u8, 191u8, 20u8, 139u8, 164u8, 40u8,
            47u8, 176u8, 18u8, 87u8, 72u8, 136u8, 169u8, 241u8,
            83u8, 160u8, 125u8, 173u8, 247u8, 101u8, 192u8, 69u8,
            92u8, 154u8, 151u8, 3u8, 128u8, 0u8, 0u8, 0u8,
        ],
    }
}

/// The identifier of the native loader, the owner of every builtin
/// program's account.
#[verifier::when_used_as_spec(spec_native_loader_id)]
pub fn native_loader_id() -> (id: Pubkey)
    ensures
        id == spec_native_loader_id(),
{
    Pubkey {
        bytes: [
            5u8, 135u8, 132u8, 191u8, 20u8, 139u8, 164u8, 40u8,
            47u8, 176u8, 18u8, 87u8, 72u8, 136u8, 169u8, 241u8,
            83u8, 160u8, 125u8, 173u8, 247u8, 101u8, 192u8, 69u8,
            92u8, 154u8, 151u8, 3u8, 128u8, 0u8, 0u8, 0u8,
        ],
    }
}

} // verus!
