use vstd::prelude::*;

verus! {

/// The byte that ends each entry in the persisted history log.
pub const LOG_SEPARATOR: u8 = 10;

/// An entry fit for one line of the log: it contains no separator byte.
pub open spec fn separator_free(entry: Seq<u8>) -> bool {
    forall|i: int| 0 <= i < entry.len() ==> entry[i] != LOG_SEPARATOR
}

/// The persisted form of a history: each entry in submission order, each
/// followed by exactly one separator byte.
pub open spec fn log_view(entries: Seq<Seq<u8>>) -> Seq<u8>
    decreases entries.len(),
{
    if entries.len() == 0 {
        Seq::empty()
    } else {
        log_view(entries.drop_last()) + entries.last() + seq![LOG_SEPARATOR]
    }
}

/// A log is empty exactly when it holds no entries, and otherwise ends
/// with a separator.
pub proof fn lemma_log_view_shape(entries: Seq<Seq<u8>>)
    ensures
        log_view(entries).len() == 0 <==> entries.len() == 0,
        entries.len() > 0 ==> log_view(entries).last() == LOG_SEPARATOR,
{
}

/// Append the bytes of one entry to the log being built.
fn push_bytes(out: &mut Vec<u8>, bytes: &Vec<u8>)
    ensures
        final(out)@ == old(out)@ + bytes@,
{
    proof {
        assert(out@ =~= old(out)@ + bytes@.subrange(0, 0));
    }
    let mut k: usize = 0;
    while k < bytes.len()
        invariant
            k <= bytes.len(),
            out@ == old(out)@ + bytes@.subrange(0, k as int),
        decreases bytes.len() - k,
    {
        out.push(bytes[k]);
        k = k + 1;
        proof {
            assert(out@ =~= old(out)@ + bytes@.subrange(0, k as int));
        }
    }
    proof {
        assert(out@ =~= old(out)@ + bytes@);
    }
}

/// Serialize a history to the flat, separator-delimited log format, in
/// submission order.
pub fn encode_log(entries: &Vec<Vec<u8>>) -> (out: Vec<u8>)
    ensures
        out@ == log_view(entries.deep_view()),
{
    let mut out: Vec<u8> = Vec::new();
    proof {
        assert(entries.deep_view().subrange(0, 0) =~= Seq::<Seq<u8>>::empty());
    }
    let mut j: usize = 0;
    while j < entries.len()
        invariant
            j <= entries.len(),
            out@ == log_view(entries.deep_view().subrange(0, j as int)),
        decreases entries.len() - j,
    {
        push_bytes(&mut out, &entries[j]);
        out.push(LOG_SEPARATOR);
        j = j + 1;
        proof {
            let dv = entries.deep_view();
            assert(dv.subrange(0, j as int).drop_last() =~= dv.subrange(0, j - 1));
            assert(dv.subrange(0, j as int).last() =~= entries@[j - 1]@);
            assert(out@ =~= log_view(dv.subrange(0, j - 1)) + dv.subrange(0, j as int).last()
                + seq![LOG_SEPARATOR]);
        }
    }
    proof {
        assert(entries.deep_view().subrange(0, entries@.len() as int) =~= entries.deep_view());
    }
    out
}

/// Parse a persisted log back into its entries, in order. Every returned
/// entry is separator-free, and re-serializing the result reproduces the
/// input exactly (with a final separator supplied if the input lacked
/// one).
pub fn decode_log(bytes: &Vec<u8>) -> (entries: Vec<Vec<u8>>)
    ensures
        forall|k: int|
            0 <= k < entries.deep_view().len() ==> separator_free(entries.deep_view()[k]),
        log_view(entries.deep_view()) == (if bytes@.len() == 0 || bytes@.last() == LOG_SEPARATOR {
            bytes@
        } else {
            bytes@.push(LOG_SEPARATOR)
        }),
{
    let mut entries: Vec<Vec<u8>> = Vec::new();
    let mut cur: Vec<u8> = Vec::new();
    let mut i: usize = 0;
    proof {
        assert(log_view(entries.deep_view()) + cur@ =~= bytes@.subrange(0, 0));
    }
    while i < bytes.len()
        invariant
            i <= bytes.len(),
            forall|k: int|
                0 <= k < entries.deep_view().len() ==> separator_free(entries.deep_view()[k]),
            separator_free(cur@),
            log_view(entries.deep_view()) + cur@ == bytes@.subrange(0, i as int),
        decreases bytes.len() - i,
    {
        let b = bytes[i];
        if b == LOG_SEPARATOR {
            let ghost dv_old = entries.deep_view();
            let ghost cur_old = cur@;
            entries.push(cur);
            cur = Vec::new();
            proof {
                let dv = entries.deep_view();
                assert(dv.drop_last() =~= dv_old);
                assert(dv.last() =~= cur_old);
                assert(log_view(dv) == log_view(dv_old) + cur_old + seq![LOG_SEPARATOR]);
                assert forall|k: int| 0 <= k < dv.len() implies separator_free(
                    #[trigger] dv[k],
                ) by {
                    if k < dv.len() - 1 {
                        assert(dv[k] == dv.drop_last()[k]);
                        assert(separator_free(dv_old[k]));
                    } else {
                        assert(dv[k] == dv.last());
                        assert(separator_free(cur_old));
                    }
                }
                assert(bytes@.subrange(0, i + 1) =~= bytes@.subrange(0, i as int).push(
                    bytes@[i as int],
                ));
                assert(log_view(dv) + cur@ =~= bytes@.subrange(0, i + 1));
            }
        } else {
            cur.push(b);
            proof {
                assert(bytes@.subrange(0, i + 1) =~= bytes@.subrange(0, i as int).push(
                    bytes@[i as int],
                ));
                assert(log_view(entries.deep_view()) + cur@ =~= bytes@.subrange(0, i + 1));
            }
        }
        i = i + 1;
    }
    proof {
        assert(bytes@.subrange(0, bytes@.len() as int) =~= bytes@);
    }
    if cur.len() > 0 {
        let ghost dv_old = entries.deep_view();
        let ghost cur_old = cur@;
        proof {
            assert(bytes@.last() == cur_old.last());
            assert(bytes@.last() != LOG_SEPARATOR);
        }
        entries.push(cur);
        proof {
            let dv = entries.deep_view();
            assert(dv.drop_last() =~= dv_old);
            assert(dv.last() =~= cur_old);
            assert(log_view(dv) == log_view(dv_old) + cur_old + seq![LOG_SEPARATOR]);
            assert(log_view(dv) =~= bytes@.push(LOG_SEPARATOR));
            assert forall|k: int| 0 <= k < dv.len() implies separator_free(#[trigger] dv[k]) by {
                if k < dv.len() - 1 {
                    assert(dv[k] == dv.drop_last()[k]);
                    assert(separator_free(dv_old[k]));
                } else {
                    assert(dv[k] == dv.last());
                    assert(separator_free(cur_old));
                }
            }
        }
    } else {
        proof {
            if bytes@.len() > 0 {
                lemma_log_view_shape(entries.deep_view());
                assert(bytes@.last() == LOG_SEPARATOR);
            }
        }
    }
    entries
}

/// Two separator-free histories with the same persisted log are the same
/// history: the log format loses nothing.
pub proof fn lemma_log_view_injective(a: Seq<Seq<u8>>, b: Seq<Seq<u8>>)
    requires
        forall|i: int| 0 <= i < a.len() ==> separator_free(#[trigger] a[i]),
        forall|i: int| 0 <= i < b.len() ==> separator_free(#[trigger] b[i]),
        log_view(a) == log_view(b),
    ensures
        a == b,
    decreases a.len(),
{
    lemma_log_view_shape(a);
    lemma_log_view_shape(b);
    if a.len() == 0 {
        assert(b.len() == 0);
        assert(a =~~= b);
    } else {
        assert(b.len() > 0);
        let pa = log_view(a.drop_last());
        let pb = log_view(b.drop_last());
        let la = a.last();
        let lb = b.last();
        lemma_log_view_shape(a.drop_last());
        lemma_log_view_shape(b.drop_last());
        assert(log_view(a) == pa + la + seq![LOG_SEPARATOR]);
        assert(log_view(b) == pb + lb + seq![LOG_SEPARATOR]);
        let total = log_view(a).len();
        assert(total == pa.len() + la.len() + 1);
        assert(total == pb.len() + lb.len() + 1);
        assert forall|m: int| 0 <= m < la.len() implies la[m] != LOG_SEPARATOR by {
            assert(separator_free(a[a.len() - 1]));
        }
        assert forall|m: int| 0 <= m < lb.len() implies lb[m] != LOG_SEPARATOR by {
            assert(separator_free(b[b.len() - 1]));
        }
        if la.len() < lb.len() {
            // The byte just before `la` in the shared log is a separator on
            // the `a` side, yet falls inside the separator-free `lb`.
            let p = pa.len() - 1;
            assert(pa.len() > 0) by {
                assert(pa.len() + la.len() == pb.len() + lb.len());
            }
            assert(log_view(a)[p] == pa.last());
            assert(pa.last() == LOG_SEPARATOR);
            assert(p >= pb.len());
            assert(log_view(b)[p] == lb[p - pb.len()]);
            assert(false);
        }
        if lb.len() < la.len() {
            let p = pb.len() - 1;
            assert(pb.len() > 0) by {
                assert(pa.len() + la.len() == pb.len() + lb.len());
            }
            assert(log_view(b)[p] == pb.last());
            assert(pb.last() == LOG_SEPARATOR);
            assert(p >= pa.len());
            assert(log_view(a)[p] == la[p - pa.len()]);
            assert(false);
        }
        assert(la.len() == lb.len());
        assert(pa.len() == pb.len());
        assert(la =~= lb) by {
            assert forall|m: int| 0 <= m < la.len() implies la[m] == lb[m] by {
                assert(log_view(a)[pa.len() + m] == la[m]);
                assert(log_view(b)[pb.len() + m] == lb[m]);
            }
        }
        assert(pa =~= pb) by {
            assert forall|m: int| 0 <= m < pa.len() implies pa[m] == pb[m] by {
                assert(log_view(a)[m] == pa[m]);
                assert(log_view(b)[m] == pb[m]);
            }
        }
        lemma_log_view_injective(a.drop_last(), b.drop_last());
        assert(a =~~= b) by {
            assert(a == a.drop_last().push(la));
            assert(b == b.drop_last().push(lb));
        }
    }
}

/// History round trip: entries appended in a session reappear, in the
/// same order and unchanged, in any separator-free parse of their
/// persisted log.
pub proof fn lemma_log_round_trip(entries: Seq<Seq<u8>>, decoded: Seq<Seq<u8>>)
    requires
        forall|i: int| 0 <= i < entries.len() ==> separator_free(#[trigger] entries[i]),
        forall|i: int| 0 <= i < decoded.len() ==> separator_free(#[trigger] decoded[i]),
        log_view(decoded) == log_view(entries),
    ensures
        decoded == entries,
{
    lemma_log_view_injective(decoded, entries);
}

} // verus!
