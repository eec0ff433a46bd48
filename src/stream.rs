use vstd::prelude::*;

verus! {

/// The byte that ends an object stream.
pub const STREAM_END: u8 = 0xFD;

/// The outcome of scanning `bytes` from offset `i` in two-byte entries, each
/// turned into a value by `entry`, up to the first entry that starts with
/// `STREAM_END`. The terminator is not part of the result. A scan that runs
/// out of bytes first fails with the offset of the entry it could not read.
pub open spec fn stream_entries<T>(bytes: Seq<u8>, i: int, entry: spec_fn(u8, u8) -> T) -> Result<
    Seq<T>,
    int,
>
    decreases bytes.len() - i,
{
    if i < 0 || i >= bytes.len() {
        Err(i)
    } else if bytes[i] == STREAM_END {
        Ok(Seq::empty())
    } else if i + 1 >= bytes.len() {
        Err(i)
    } else {
        prefixed(seq![entry(bytes[i], bytes[i + 1])], stream_entries(bytes, i + 2, entry))
    }
}

/// `r` with `p` put in front of its entries, if it is a success.
pub open spec fn prefixed<T>(p: Seq<T>, r: Result<Seq<T>, int>) -> Result<Seq<T>, int> {
    match r {
        Ok(s) => Ok(p + s),
        Err(e) => Err(e),
    }
}

/// Whether some entry start at or after the even offset `i` holds the terminator.
pub open spec fn has_terminator_from(bytes: Seq<u8>, i: int) -> bool {
    exists|j: int| i <= j < bytes.len() && j % 2 == 0 && #[trigger] bytes[j] == STREAM_END
}

/// Putting `p` and then `x` in front of a scan's entries is putting `p` with
/// `x` appended in front of them.
pub proof fn lemma_prefixed_push<T>(p: Seq<T>, x: T, r: Result<Seq<T>, int>)
    ensures
        prefixed(p, prefixed(seq![x], r)) == prefixed(p.push(x), r),
{
    if let Ok(s) = r {
        assert(p + (seq![x] + s) =~= p.push(x) + s);
    }
}

proof fn lemma_stream_shape_from<T>(bytes: Seq<u8>, i: int, entry: spec_fn(u8, u8) -> T)
    requires
        0 <= i <= bytes.len(),
        i % 2 == 0,
    ensures
        (stream_entries(bytes, i, entry) is Ok) <==> has_terminator_from(bytes, i),
        stream_entries(bytes, i, entry) matches Ok(s) ==> {
            &&& i + 2 * s.len() < bytes.len()
            &&& bytes[i + 2 * s.len()] == STREAM_END
            &&& forall|k: int|
                0 <= k < s.len() ==> #[trigger] s[k] == entry(bytes[i + 2 * k], bytes[i + 2 * k + 1])
            &&& forall|j: int|
                i <= j < i + 2 * s.len() && j % 2 == 0 ==> #[trigger] bytes[j] != STREAM_END
        },
        stream_entries(bytes, i, entry) matches Err(e) ==> e == 2 * (bytes.len() / 2),
    decreases bytes.len() - i,
{
    let len = bytes.len() as int;
    if i >= len {
    } else if bytes[i] == STREAM_END {
        assert(has_terminator_from(bytes, i));
        assert(stream_entries(bytes, i, entry) == Ok::<Seq<T>, int>(Seq::empty()));
    } else if i + 1 >= len {
        assert(!has_terminator_from(bytes, i)) by {
            if has_terminator_from(bytes, i) {
                let j = choose|j: int|
                    i <= j < bytes.len() && j % 2 == 0 && #[trigger] bytes[j] == STREAM_END;
                assert(j == i);
            }
        }
    } else {
        lemma_stream_shape_from(bytes, i + 2, entry);
        let x = entry(bytes[i], bytes[i + 1]);
        assert(has_terminator_from(bytes, i) <==> has_terminator_from(bytes, i + 2)) by {
            if has_terminator_from(bytes, i) {
                let j = choose|j: int|
                    i <= j < bytes.len() && j % 2 == 0 && #[trigger] bytes[j] == STREAM_END;
                assert(j != i);
                assert(i + 2 <= j);
            }
        }
        if let Ok(rest) = stream_entries(bytes, i + 2, entry) {
            let s = seq![x] + rest;
            assert(stream_entries(bytes, i, entry) == Ok::<Seq<T>, int>(s));
            assert forall|k: int| 0 <= k < s.len() implies #[trigger] s[k] == entry(
                bytes[i + 2 * k],
                bytes[i + 2 * k + 1],
            ) by {
                if k > 0 {
                    let k1 = k - 1;
                    assert(s[k] == rest[k1]);
                    assert(i + 2 * k == (i + 2) + 2 * k1);
                }
            }
            assert(i + 2 * s.len() == (i + 2) + 2 * rest.len());
        }
    }
}

/// An object stream decodes successfully exactly when some even offset holds
/// the terminator. The result then has one entry for each two-byte pair before
/// the first such terminator, decoded from that pair, and nothing after it is
/// read. A failed scan reports the offset of the last, incomplete entry.
pub proof fn lemma_stream_shape<T>(bytes: Seq<u8>, entry: spec_fn(u8, u8) -> T)
    ensures
        (stream_entries(bytes, 0, entry) is Ok) <==> has_terminator_from(bytes, 0),
        stream_entries(bytes, 0, entry) matches Ok(s) ==> {
            &&& 2 * s.len() < bytes.len()
            &&& bytes[2 * s.len() as int] == STREAM_END
            &&& forall|k: int|
                0 <= k < s.len() ==> #[trigger] s[k] == entry(bytes[2 * k], bytes[2 * k + 1])
            &&& forall|j: int|
                0 <= j < 2 * s.len() && j % 2 == 0 ==> #[trigger] bytes[j] != STREAM_END
        },
        stream_entries(bytes, 0, entry) matches Err(e) ==> e == 2 * (bytes.len() / 2),
{
    lemma_stream_shape_from(bytes, 0, entry);
}

/// A stream whose first byte is the terminator decodes to no entries, and a
/// stream that holds no terminator byte at all fails as truncated.
pub proof fn lemma_stream_boundaries<T>(bytes: Seq<u8>, entry: spec_fn(u8, u8) -> T)
    ensures
        bytes.len() > 0 && bytes[0] == STREAM_END ==> stream_entries(bytes, 0, entry) == Ok::<
            Seq<T>,
            int,
        >(Seq::empty()),
        (forall|j: int| 0 <= j < bytes.len() ==> bytes[j] != STREAM_END) ==> stream_entries(
            bytes,
            0,
            entry,
        ) is Err,
{
    lemma_stream_shape(bytes, entry);
}

} // verus!
