//! The blob-transfer sub-protocol: surfaces stream binary data back to the
//! host as a sequence of data-url fragments, ended by an end-of-transfer
//! sentinel. Finalizing concatenates the fragments, strips the data-url
//! header (through the first comma), and decodes the base64 payload.

use vstd::prelude::*;
use crate::strutil::{spec_find, find_char, tail_from};

verus! {

/// The value of one base64 alphabet character.
pub open spec fn b64_val(c: char) -> Option<u8> {
    let v = c as u32;
    if 65 <= v <= 90 {
        Some((v - 65) as u8)
    } else if 97 <= v <= 122 {
        Some((v - 97 + 26) as u8)
    } else if 48 <= v <= 57 {
        Some((v - 48 + 52) as u8)
    } else if v == 43 {
        Some(62u8)
    } else if v == 47 {
        Some(63u8)
    } else {
        None
    }
}

/// The three bytes encoded by a full block of four values.
pub open spec fn b64_full_block(a: u8, b: u8, c: u8, d: u8) -> Seq<u8> {
    seq![
        (a * 4 + b / 16) as u8,
        ((b % 16) * 16 + c / 4) as u8,
        ((c % 4) * 64 + d) as u8,
    ]
}

/// The bytes of one block of four characters. Padding (`=`) is accepted
/// only in the final block, in the last one or two places.
pub open spec fn b64_head_block(blk: Seq<char>, is_last: bool) -> Option<Seq<u8>> {
    match (b64_val(blk[0]), b64_val(blk[1])) {
        (Some(a), Some(b)) => if is_last && blk[2] == '=' && blk[3] == '=' {
            Some(seq![(a * 4 + b / 16) as u8])
        } else {
            match b64_val(blk[2]) {
                Some(c) => if is_last && blk[3] == '=' {
                    Some(seq![(a * 4 + b / 16) as u8, ((b % 16) * 16 + c / 4) as u8])
                } else {
                    match b64_val(blk[3]) {
                        Some(d) => Some(b64_full_block(a, b, c, d)),
                        None => None,
                    }
                },
                None => None,
            }
        },
        _ => None,
    }
}

/// Base64 decoding of a whole text: block by block, `None` on any text
/// that is not a valid encoding.
pub open spec fn b64_decode(s: Seq<char>) -> Option<Seq<u8>>
    decreases s.len(),
{
    if s.len() == 0 {
        Some(Seq::<u8>::empty())
    } else if s.len() < 4 {
        None
    } else {
        match (b64_head_block(s.subrange(0, 4), s.len() == 4), b64_decode(s.skip(4))) {
            (Some(h), Some(r)) => Some(h + r),
            _ => None,
        }
    }
}

proof fn lemma_b64_len_mod(s: Seq<char>)
    requires
        s.len() % 4 != 0,
    ensures
        b64_decode(s) is None,
    decreases s.len(),
{
    if s.len() >= 4 {
        assert(s.skip(4).len() % 4 != 0) by {
            assert(s.skip(4).len() == s.len() - 4);
        }
        lemma_b64_len_mod(s.skip(4));
    }
}

proof fn lemma_block_view(s: Seq<char>, i: int)
    requires
        0 <= i,
        i + 4 <= s.len(),
    ensures
        s.skip(i).len() == s.len() - i,
        s.skip(i).subrange(0, 4)[0] == s[i],
        s.skip(i).subrange(0, 4)[1] == s[i + 1],
        s.skip(i).subrange(0, 4)[2] == s[i + 2],
        s.skip(i).subrange(0, 4)[3] == s[i + 3],
        s.skip(i).skip(4) == s.skip(i + 4),
{
    assert(s.skip(i).skip(4) =~= s.skip(i + 4));
}

fn b64_char_value(c: char) -> (r: Option<u8>)
    ensures
        r == b64_val(c),
{
    let v = c as u32;
    if 65 <= v && v <= 90 {
        Some((v - 65) as u8)
    } else if 97 <= v && v <= 122 {
        Some((v - 97 + 26) as u8)
    } else if 48 <= v && v <= 57 {
        Some((v - 48 + 52) as u8)
    } else if v == 43 {
        Some(62u8)
    } else if v == 47 {
        Some(63u8)
    } else {
        None
    }
}

/// Decodes a base64 text; `None` exactly on texts that are not a valid
/// encoding.
pub fn base64_decode(s: &str) -> (r: Option<Vec<u8>>)
    ensures
        match r {
            Some(v) => b64_decode(s@) == Some(v@),
            None => b64_decode(s@) is None,
        },
{
    let len = s.unicode_len();
    if len % 4 != 0 {
        proof {
            lemma_b64_len_mod(s@);
        }
        return None;
    }
    let mut out: Vec<u8> = Vec::new();
    let mut i: usize = 0;
    proof {
        assert(s@.skip(0) =~= s@);
        match b64_decode(s@) {
            Some(rest) => {
                assert(Seq::<u8>::empty() + rest =~= rest);
            },
            None => {},
        }
    }
    while i < len
        invariant
            i % 4 == 0,
            i <= len,
            len == s@.len(),
            len % 4 == 0,
            b64_decode(s@) == match b64_decode(s@.skip(i as int)) {
                Some(rest) => Some(out@ + rest),
                None => None::<Seq<u8>>,
            },
        decreases len - i,
    {
        proof {
            lemma_block_view(s@, i as int);
        }
        let ghost t = s@.skip(i as int);
        let c0 = s.get_char(i);
        let c1 = s.get_char(i + 1);
        let c2 = s.get_char(i + 2);
        let c3 = s.get_char(i + 3);
        let is_last = i + 4 == len;
        proof {
            assert(t.len() == len - i && t.len() >= 4);
            assert((t.len() == 4) == is_last);
        }

        let a = match b64_char_value(c0) {
            Some(v) => v,
            None => {
                proof {
                    assert(b64_head_block(t.subrange(0, 4), is_last) is None);
                    assert(b64_decode(t) is None);
                }
                return None;
            },
        };
        let b = match b64_char_value(c1) {
            Some(v) => v,
            None => {
                proof {
                    assert(b64_head_block(t.subrange(0, 4), is_last) is None);
                    assert(b64_decode(t) is None);
                }
                return None;
            },
        };
        let ghost out_before = out@;
        if is_last && c2 == '=' && c3 == '=' {
            out.push(a * 4 + b / 16);
            proof {
                assert(b64_head_block(t.subrange(0, 4), is_last) == Some(
                    seq![(a * 4 + b / 16) as u8],
                ));
                assert(out@ =~= out_before + seq![(a * 4 + b / 16) as u8]);
            }
        } else {
            let c = match b64_char_value(c2) {
                Some(v) => v,
                None => {
                    proof {
                        assert(b64_head_block(t.subrange(0, 4), is_last) is None);
                        assert(b64_decode(t) is None);
                    }
                    return None;
                },
            };
            if is_last && c3 == '=' {
                out.push(a * 4 + b / 16);
                out.push((b % 16) * 16 + c / 4);
                proof {
                    assert(b64_head_block(t.subrange(0, 4), is_last) == Some(
                        seq![(a * 4 + b / 16) as u8, ((b % 16) * 16 + c / 4) as u8],
                    ));
                    assert(out@ =~= out_before + seq![
                        (a * 4 + b / 16) as u8,
                        ((b % 16) * 16 + c / 4) as u8,
                    ]);
                }
            } else {
                let d = match b64_char_value(c3) {
                    Some(v) => v,
                    None => {
                        proof {
                            assert(b64_head_block(t.subrange(0, 4), is_last) is None);
                            assert(b64_decode(t) is None);
                        }
                        return None;
                    },
                };
                out.push(a * 4 + b / 16);
                out.push((b % 16) * 16 + c / 4);
                out.push((c % 4) * 64 + d);
                proof {
                    assert(b64_head_block(t.subrange(0, 4), is_last) == Some(
                        b64_full_block(a, b, c, d),
                    ));
                    assert(out@ =~= out_before + b64_full_block(a, b, c, d));
                }
            }
        }
        proof {
            let h = b64_head_block(t.subrange(0, 4), is_last)->Some_0;
            assert(out@ == out_before + h);
            assert(b64_decode(t) == match b64_decode(s@.skip(i as int + 4)) {
                Some(r2) => Some(h + r2),
                None => None::<Seq<u8>>,
            });
            match b64_decode(s@.skip(i as int + 4)) {
                Some(r2) => {
                    assert(out_before + (h + r2) =~= out@ + r2);
                },
                None => {},
            }
        }
        i = i + 4;
    }
    proof {
        assert(s@.skip(len as int) =~= Seq::<char>::empty());
        assert(b64_decode(s@.skip(len as int)) == Some(Seq::<u8>::empty()));
        assert(out@ + Seq::<u8>::empty() =~= out@);
    }
    Some(out)
}

/// The concatenation of the fragments, in arrival order.
pub open spec fn concat_chunks(cs: Seq<Seq<char>>) -> Seq<char>
    decreases cs.len(),
{
    if cs.len() == 0 {
        Seq::<char>::empty()
    } else {
        concat_chunks(cs.drop_last()) + cs.last()
    }
}

/// The payload after the data-url header: everything past the first comma.
/// A text without a comma is not a data url and carries nothing.
pub open spec fn strip_data_url(s: Seq<char>) -> Option<Seq<char>> {
    match spec_find(s, ',') {
        Some(i) => Some(s.subrange(i + 1, s.len() as int)),
        None => None,
    }
}

/// What a finished transfer decodes to: the stripped, concatenated payload
/// if it is valid base64, else nothing.
pub open spec fn finalize_spec(cs: Seq<Seq<char>>) -> Option<Seq<u8>> {
    match strip_data_url(concat_chunks(cs)) {
        Some(p) => b64_decode(p),
        None => None,
    }
}

/// Law: a transfer that received fragments `a` then `b` finalizes to the
/// decode of the stripped concatenation `a + b`.
pub proof fn lemma_two_chunk_finalize(a: Seq<char>, b: Seq<char>)
    ensures
        idle_transfer().chunks.push(a).push(b) =~= seq![a, b],
        finalize_spec(seq![a, b]) == match strip_data_url(a + b) {
            Some(p) => b64_decode(p),
            None => None::<Seq<u8>>,
        },
{
    let e = Seq::<Seq<char>>::empty();
    let cs = seq![a, b];
    assert(concat_chunks(e) == Seq::<char>::empty());
    assert(seq![a].drop_last() =~= e);
    assert(seq![a].last() == a);
    assert(concat_chunks(seq![a]) == concat_chunks(e) + a);
    assert(Seq::<char>::empty() + a =~= a);
    assert(cs.drop_last() =~= seq![a]);
    assert(cs.last() == b);
    assert(concat_chunks(cs) == concat_chunks(seq![a]) + b);
    assert(concat_chunks(cs) == a + b);
}

/// Concatenation distributes over appended fragment sequences.
proof fn lemma_concat_chunks_append(cs: Seq<Seq<char>>, rest: Seq<Seq<char>>)
    ensures
        concat_chunks(cs + rest) == concat_chunks(cs) + concat_chunks(rest),
    decreases rest.len(),
{
    if rest.len() == 0 {
        assert(cs + rest =~= cs);
        assert(concat_chunks(cs) + concat_chunks(rest) =~= concat_chunks(cs));
    } else {
        lemma_concat_chunks_append(cs, rest.drop_last());
        assert((cs + rest).drop_last() =~= cs + rest.drop_last());
        assert((cs + rest).last() == rest.last());
        assert(concat_chunks(cs + rest) == concat_chunks(cs + rest.drop_last()) + rest.last());
        assert(concat_chunks(rest) == concat_chunks(rest.drop_last()) + rest.last());
        assert(concat_chunks(cs) + (concat_chunks(rest.drop_last()) + rest.last()) =~= (
        concat_chunks(cs) + concat_chunks(rest.drop_last())) + rest.last());
    }
}

/// A non-empty valid encoding holds at least one byte.
proof fn lemma_decode_nonempty(s: Seq<char>)
    requires
        s.len() > 0,
        b64_decode(s) is Some,
    ensures
        b64_decode(s)->Some_0.len() >= 1,
{
    let h = b64_head_block(s.subrange(0, 4), s.len() == 4)->Some_0;
    assert(h.len() >= 1);
}

/// Decoding a strict prefix of a valid encoding yields strictly fewer
/// bytes than decoding the whole.
proof fn lemma_prefix_decode_shorter(p1: Seq<char>, p2: Seq<char>)
    requires
        p2.len() > 0,
        b64_decode(p1) is Some,
        b64_decode(p1 + p2) is Some,
    ensures
        b64_decode(p1 + p2)->Some_0.len() > b64_decode(p1)->Some_0.len(),
    decreases p1.len(),
{
    if p1.len() == 0 {
        assert(p1 + p2 =~= p2);
        lemma_decode_nonempty(p2);
    } else {
        if p1.len() % 4 != 0 {
            lemma_b64_len_mod(p1);
        }
        assert(p1.len() >= 4);
        let whole = p1 + p2;
        assert(whole.len() > 4);
        let blk = p1.subrange(0, 4);
        assert(whole.subrange(0, 4) =~= blk);
        assert(whole.skip(4) =~= p1.skip(4) + p2);
        // the whole decodes, so the shared leading block carries no padding
        assert(b64_head_block(blk, false) is Some);
        assert(b64_val(blk[2]) is Some && b64_val(blk[3]) is Some);
        assert(blk[2] != '=' && blk[3] != '=') by {
            assert(b64_val('=') is None);
        }
        assert(b64_head_block(blk, p1.len() == 4) == b64_head_block(blk, false));
        assert(b64_decode(p1.skip(4)) is Some);
        assert(b64_decode(whole.skip(4)) is Some);
        assert(b64_decode(p1.skip(4) + p2) is Some);
        lemma_prefix_decode_shorter(p1.skip(4), p2);
        let h = b64_head_block(blk, false)->Some_0;
        assert(b64_decode(p1)->Some_0 == h + b64_decode(p1.skip(4))->Some_0);
        assert(b64_decode(whole)->Some_0 == h + b64_decode(p1.skip(4) + p2)->Some_0);
    }
}

/// Law: an end-of-transfer that arrives while fragments carrying text are
/// still owed can never pass for the complete transfer: either the early
/// buffer yields nothing, or it yields strictly fewer bytes than the full
/// sequence of fragments would.
pub proof fn lemma_early_eof_never_completes(cs: Seq<Seq<char>>, rest: Seq<Seq<char>>)
    requires
        concat_chunks(rest).len() > 0,
        finalize_spec(cs + rest) is Some,
    ensures
        finalize_spec(cs) != finalize_spec(cs + rest),
        finalize_spec(cs) matches Some(early) ==> finalize_spec(
            cs + rest,
        )->Some_0.len() > early.len(),
{
    lemma_concat_chunks_append(cs, rest);
    let s = concat_chunks(cs);
    let t = concat_chunks(rest);
    assert(concat_chunks(cs + rest) == s + t);
    crate::strutil::lemma_spec_find(s + t, ',');
    match finalize_spec(cs) {
        None => {},
        Some(early) => {
            crate::strutil::lemma_spec_find(s, ',');
            let i = spec_find(s, ',')->Some_0;
            // the first comma of the full text is the first comma of the
            // early text: the prefix is shared
            assert(spec_find(s + t, ',') == Some(i)) by {
                assert((s + t)[i] == s[i]);
                match spec_find(s + t, ',') {
                    None => {
                        assert((s + t)[i] != ',');
                    },
                    Some(j) => {
                        if j < i {
                            assert((s + t)[j] == s[j]);
                            assert(s[j] != ',');
                        }
                        if j > i {
                            assert((s + t)[i] != ',');
                        }
                    },
                }
            }
            let p1 = s.subrange(i + 1, s.len() as int);
            assert((s + t).subrange(i + 1, (s + t).len() as int) =~= p1 + t);
            lemma_prefix_decode_shorter(p1, t);
        },
    }
}

/// Law: a transfer that was ended before any fragment arrived decodes to
/// nothing.
pub proof fn lemma_empty_transfer_invalid()
    ensures
        finalize_spec(Seq::<Seq<char>>::empty()) is None,
{
    crate::strutil::lemma_spec_find(Seq::<char>::empty(), ',');
}

/// The model of the transfer buffer.
pub struct BlobTransferModel {
    pub chunks: Seq<Seq<char>>,
    pub active: bool,
    pub dest: Option<Seq<char>>,
    pub owner: Option<u64>,
}

/// The single in-flight transfer buffer: fragments in arrival order, the
/// destination the finished bytes belong to, and the surface that started
/// the transfer. At most one transfer runs at a time; starting a second
/// one while the first is open is rejected.
pub struct BlobTransfer {
    chunks: Vec<String>,
    active: bool,
    dest: Option<String>,
    owner: Option<u64>,
}

impl View for BlobTransfer {
    type V = BlobTransferModel;

    closed spec fn view(&self) -> BlobTransferModel {
        BlobTransferModel {
            chunks: self.chunks.deep_view(),
            active: self.active,
            dest: match self.dest {
                Some(d) => Some(d@),
                None => None,
            },
            owner: self.owner,
        }
    }
}

pub open spec fn idle_transfer() -> BlobTransferModel {
    BlobTransferModel { chunks: Seq::<Seq<char>>::empty(), active: false, dest: None, owner: None }
}

impl BlobTransfer {
    pub fn new() -> (r: Self)
        ensures
            r@ == idle_transfer(),
    {
        let r = BlobTransfer { chunks: Vec::new(), active: false, dest: None, owner: None };
        proof {
            assert(r@.chunks =~= Seq::<Seq<char>>::empty());
        }
        r
    }

    /// Opens a transfer for a surface, fixing where the finished bytes go.
    /// Rejected while another transfer is open.
    pub fn begin(&mut self, dest: Option<String>, owner: u64) -> (accepted: bool)
        ensures
            accepted == !old(self)@.active,
            accepted ==> final(self)@ == (BlobTransferModel {
                chunks: old(self)@.chunks,
                active: true,
                dest: match dest {
                    Some(d) => Some(d@),
                    None => None,
                },
                owner: Some(owner),
            }),
            !accepted ==> final(self)@ == old(self)@,
    {
        if self.active {
            return false;
        }
        self.active = true;
        self.dest = dest;
        self.owner = Some(owner);
        true
    }

    /// Appends one fragment; the first fragment opens an anonymous
    /// transfer.
    pub fn push_chunk(&mut self, chunk: String)
        ensures
            final(self)@ == (BlobTransferModel {
                chunks: old(self)@.chunks.push(chunk@),
                active: true,
                ..old(self)@
            }),
    {
        self.active = true;
        self.chunks.push(chunk);
        proof {
            assert(self@.chunks =~= old(self)@.chunks.push(chunk@));
        }
    }

    /// Ends the transfer: yields the decoded bytes (if the accumulated text
    /// is a valid data url) and the destination, and resets the buffer.
    pub fn finish(&mut self) -> (r: (Option<Vec<u8>>, Option<String>))
        ensures
            final(self)@ == idle_transfer(),
            match r.0 {
                Some(v) => finalize_spec(old(self)@.chunks) == Some(v@),
                None => finalize_spec(old(self)@.chunks) is None,
            },
            match r.1 {
                Some(d) => old(self)@.dest == Some(d@),
                None => old(self)@.dest is None,
            },
    {
        let mut all = String::new();
        let mut k: usize = 0;
        while k < self.chunks.len()
            invariant
                k <= self.chunks@.len(),
                all@ == concat_chunks(self.chunks.deep_view().take(k as int)),
            decreases self.chunks@.len() - k,
        {
            proof {
                let cs = self.chunks.deep_view();
                assert(cs.take(k as int + 1).drop_last() =~= cs.take(k as int));
                assert(cs.take(k as int + 1).last() == cs[k as int]);
            }
            all.append(self.chunks[k].as_str());
            k = k + 1;
        }
        proof {
            assert(self.chunks.deep_view().take(self.chunks@.len() as int) =~= self.chunks.deep_view());
        }
        let _total = all.as_str().unicode_len();
        proof {
            crate::strutil::lemma_spec_find(all@, ',');
        }
        let bytes = match find_char(all.as_str(), ',') {
            Some(i) => {
                let payload = tail_from(all.as_str(), i + 1);
                base64_decode(payload.as_str())
            },
            None => None,
        };
        let dest = match &self.dest {
            Some(d) => Some(d.clone()),
            None => None,
        };
        self.chunks = Vec::new();
        self.active = false;
        self.dest = None;
        self.owner = None;
        proof {
            assert(self@.chunks =~= Seq::<Seq<char>>::empty());
        }
        (bytes, dest)
    }

    /// Whether a transfer is currently open.
    pub fn is_active(&self) -> (r: bool)
        ensures
            r == self@.active,
    {
        self.active
    }
}

} // verus!
