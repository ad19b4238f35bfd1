use vstd::prelude::*;
use vstd::string::StringSliceAdditionalSpecFns;

verus! {

/// Whether `bytes` holds no NUL byte.
pub open spec fn has_no_nul(bytes: Seq<u8>) -> bool {
    forall|i: int| 0 <= i < bytes.len() ==> bytes[i] != 0
}

/// Whether `bytes` is a C string: a NUL byte at the end and none before it.
pub open spec fn is_c_name(bytes: Seq<u8>) -> bool {
    bytes.len() > 0 && bytes.last() == 0 && has_no_nul(bytes.drop_last())
}

/// Appending the terminator to bytes without a NUL gives a C string.
pub proof fn lemma_terminated_is_c_name(bytes: Seq<u8>)
    requires
        has_no_nul(bytes),
    ensures
        is_c_name(bytes.push(0)),
{
    assert(bytes.push(0).drop_last() =~= bytes);
}

/// The span name for `name` as a C string: its bytes followed by a NUL
/// byte, or `None` where `name` already holds a NUL byte.
pub fn to_c_name(name: &str) -> (r: Option<Vec<u8>>)
    ensures
        r is Some <==> has_no_nul(name.spec_bytes()),
        r matches Some(v) ==> v@ == name.spec_bytes().push(0),
{
    let bytes = name.as_bytes();
    let mut out: Vec<u8> = Vec::new();
    let mut i: usize = 0;
    while i < bytes.len()
        invariant
            bytes@ == name.spec_bytes(),
            0 <= i <= bytes.len(),
            out@ == bytes@.take(i as int),
            has_no_nul(out@),
        decreases bytes.len() - i,
    {
        if bytes[i] == 0 {
            return None;
        }
        out.push(bytes[i]);
        i += 1;
        assert(out@ =~= bytes@.take(i as int));
    }
    assert(out@ =~= bytes@);
    out.push(0);
    proof {
        lemma_terminated_is_c_name(bytes@);
    }
    Some(out)
}

} // verus!
