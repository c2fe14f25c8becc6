use vstd::prelude::*;

verus! {

/// The order of the secp256k1 group.
pub open spec fn group_order() -> nat {
    0xFFFFFFFFFFFFFFFFFFFFFFFFFFFFFFFEBAAEDCE6AF48A03BBFD25E8CD0364141nat
}

/// The unsigned integer that `b` spells in big-endian byte order.
pub open spec fn be_value(b: Seq<u8>) -> nat
    decreases b.len(),
{
    if b.len() == 0 {
        0
    } else {
        be_value(b.drop_last()) * 256 + b.last() as nat
    }
}

/// A byte string is a valid secret key when it is 32 bytes long and spells,
/// big-endian, a nonzero scalar below the group order.
pub open spec fn secret_accepted(b: Seq<u8>) -> bool {
    &&& b.len() == 32
    &&& 0 < be_value(b)
    &&& be_value(b) < group_order()
}

} // verus!
