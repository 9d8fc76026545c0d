use vstd::prelude::*;
use crate::mrt_dump::error::DumpError;

verus! {

/// What an encoder owes: the bytes, or the error.
pub type Encoded = Result<Seq<u8>, DumpError>;

/// The result of an encoder with its bytes as a sequence.
pub open spec fn bytes_of(r: Result<Vec<u8>, DumpError>) -> Encoded {
    match r {
        Ok(v) => Ok(v@),
        Err(e) => Err(e),
    }
}

/// One encoding after another: the first error in writing order, or the
/// bytes of `a` followed by those of `b`.
pub open spec fn cat(a: Encoded, b: Encoded) -> Encoded {
    match a {
        Err(e) => Err(e),
        Ok(x) => match b {
            Err(e) => Err(e),
            Ok(y) => Ok(x + y),
        },
    }
}

/// The encodings of a list of items written one after another: the first
/// error in writing order, or all the bytes in order.
pub open spec fn join(parts: Seq<Encoded>) -> Encoded
    decreases parts.len(),
{
    if parts.len() == 0 {
        Ok(Seq::<u8>::empty())
    } else {
        cat(join(parts.drop_last()), parts.last())
    }
}

/// Writing one more item appends its encoding to what was written before.
pub proof fn lemma_join_step(parts: Seq<Encoded>, i: int)
    requires
        0 <= i < parts.len(),
    ensures
        join(parts.take(i + 1)) == cat(join(parts.take(i)), parts[i]),
{
    assert(parts.take(i + 1).drop_last() =~= parts.take(i));
}

/// An error among the first items is the error of the whole list.
pub proof fn lemma_join_err(parts: Seq<Encoded>, i: int)
    requires
        0 <= i <= parts.len(),
        join(parts.take(i)) is Err,
    ensures
        join(parts) == join(parts.take(i)),
    decreases parts.len() - i,
{
    if i == parts.len() {
        assert(parts.take(i) =~= parts);
    } else {
        lemma_join_step(parts, i);
        lemma_join_err(parts, i + 1);
    }
}

/// A list of one item is written as that item.
pub proof fn lemma_join_one(part: Encoded)
    ensures
        join(seq![part]) == part,
{
    let one = seq![part];
    assert(one.drop_last() =~= Seq::<Encoded>::empty());
    assert(join(one.drop_last()) == Ok::<Seq<u8>, DumpError>(Seq::empty()));
    assert(one.last() == part);
    assert(join(one) == cat(join(one.drop_last()), part));
    if let Ok(bytes) = part {
        assert(Seq::<u8>::empty() + bytes =~= bytes);
    }
}

/// All the items of a list are the list.
pub proof fn lemma_join_all(parts: Seq<Encoded>)
    ensures
        join(parts.take(parts.len() as int)) == join(parts),
{
    assert(parts.take(parts.len() as int) =~= parts);
}

/// Appends the octets of `bytes` to `buf`.
pub fn put_bytes(buf: &mut Vec<u8>, bytes: &[u8])
    ensures
        final(buf)@ == old(buf)@ + bytes@,
{
    let mut i: usize = 0;
    while i < bytes.len()
        invariant
            i <= bytes@.len(),
            buf@ == old(buf)@ + bytes@.take(i as int),
        decreases bytes@.len() - i,
    {
        buf.push(bytes[i]);
        i = i + 1;
        assert(buf@ =~= old(buf)@ + bytes@.take(i as int));
    }
    assert(bytes@.take(i as int) =~= bytes@);
}

/// A body behind its length in two octets. A body of more than 65535
/// octets cannot be counted and is too large.
pub open spec fn counted16(body: Encoded) -> Encoded {
    match body {
        Err(e) => Err(e),
        Ok(b) => if b.len() > 0xFFFF {
            Err(DumpError::ValueTooLarge)
        } else {
            Ok(seq![(b.len() / 256) as u8, (b.len() % 256) as u8] + b)
        },
    }
}

/// Puts the length of `body`, in two octets, in front of it.
pub fn with_count16(body: Result<Vec<u8>, DumpError>) -> (r: Result<Vec<u8>, DumpError>)
    ensures
        bytes_of(r) == counted16(bytes_of(body)),
{
    match body {
        Err(e) => Err(e),
        Ok(b) => {
            if b.len() > 0xFFFF {
                return Err(DumpError::ValueTooLarge);
            }
            let mut buf: Vec<u8> = Vec::new();
            buf.push((b.len() / 256) as u8);
            buf.push((b.len() % 256) as u8);
            put_bytes(&mut buf, b.as_slice());
            assert(buf@ =~= seq![(b@.len() / 256) as u8, (b@.len() % 256) as u8] + b@);
            Ok(buf)
        },
    }
}

} // verus!
