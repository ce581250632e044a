//! The persisted form of a user record: an 8-byte type tag, then each field
//! in declaration order, little-endian and without padding.
use vstd::prelude::*;

use crate::state::{UserAccount, DISCRIMINATOR_LEN, USER_ACCOUNT_LEN};

verus! {

/// The low `n` bytes of `x`, least significant first.
pub open spec fn le_bytes(x: nat, n: nat) -> Seq<u8>
    decreases n,
{
    if n == 0 {
        seq![]
    } else {
        seq![(x % 256) as u8] + le_bytes(x / 256, (n - 1) as nat)
    }
}

/// The serialized form of `a` under the type tag `tag`.
pub open spec fn account_bytes(tag: Seq<u8>, a: UserAccount) -> Seq<u8> {
    tag + a.authority@ + le_bytes(a.total_queries as nat, 8) + le_bytes(a.total_fees_paid as nat, 8)
        + a.last_prompt_hash@ + a.last_response_hash@ + le_bytes(a.last_log_slot as nat, 8) + seq![a.bump]
}

proof fn lemma_le_bytes_len(x: nat, n: nat)
    ensures
        le_bytes(x, n).len() == n,
    decreases n,
{
    if n > 0 {
        lemma_le_bytes_len(x / 256, (n - 1) as nat);
    }
}

/// `256` to the power `n`.
pub open spec fn pow256(n: nat) -> nat
    decreases n,
{
    if n == 0 {
        1
    } else {
        256 * pow256((n - 1) as nat)
    }
}

proof fn lemma_pow256_mono(i: nat, j: nat)
    requires
        i <= j,
    ensures
        pow256(i) <= pow256(j),
    decreases j,
{
    if i < j {
        lemma_pow256_mono(i, (j - 1) as nat);
    }
}

proof fn lemma_pow256_eight()
    ensures
        pow256(8) == u64::MAX + 1,
{
    reveal_with_fuel(pow256, 9);
}

/// Two numbers below `256^n` with the same low `n` bytes are equal.
proof fn lemma_le_bytes_injective(x: nat, y: nat, n: nat)
    requires
        x < pow256(n),
        y < pow256(n),
        le_bytes(x, n) == le_bytes(y, n),
    ensures
        x == y,
    decreases n,
{
    if n > 0 {
        let m = (n - 1) as nat;
        lemma_le_bytes_len(x / 256, m);
        lemma_le_bytes_len(y / 256, m);
        assert(le_bytes(x, n)[0] == (x % 256) as u8);
        assert(le_bytes(y, n)[0] == (y % 256) as u8);
        assert(le_bytes(x, n)[0] == le_bytes(y, n)[0]);
        assert(le_bytes(x / 256, m) =~= le_bytes(x, n).subrange(1, n as int));
        assert(le_bytes(y / 256, m) =~= le_bytes(y, n).subrange(1, n as int));
        assert(x / 256 < pow256(m)) by (nonlinear_arith)
            requires x < 256 * pow256(m);
        assert(y / 256 < pow256(m)) by (nonlinear_arith)
            requires y < 256 * pow256(m);
        lemma_le_bytes_injective(x / 256, y / 256, m);
        assert(x % 256 == y % 256);
        assert(x == 256 * (x / 256) + x % 256) by (nonlinear_arith);
        assert(y == 256 * (y / 256) + y % 256) by (nonlinear_arith);
    }
}

fn read_array32(data: &[u8], off: usize) -> (r: [u8; 32])
    requires
        off + 32 <= data@.len(),
    ensures
        r@ == data@.subrange(off as int, off + 32),
{
    let len = data.len();
    let mut r = [0u8; 32];
    let mut i: usize = 0;
    while i < 32
        invariant
            i <= 32,
            len == data@.len(),
            off + 32 <= data@.len(),
            forall|j: int| 0 <= j < i ==> r@[j] == data@[off + j],
        decreases 32 - i,
    {
        r[i] = data[off + i];
        i = i + 1;
    }
    assert(r@ =~= data@.subrange(off as int, off + 32));
    r
}

fn read_u64_le(data: &[u8], off: usize) -> (r: u64)
    requires
        off + 8 <= data@.len(),
    ensures
        le_bytes(r as nat, 8) == data@.subrange(off as int, off + 8),
{
    let len = data.len();
    let mut v: u64 = 0;
    let mut i: usize = 0;
    while i < 8
        invariant
            i <= 8,
            len == data@.len(),
            off + 8 <= data@.len(),
            (v as nat) < pow256(i as nat),
            le_bytes(v as nat, i as nat) == data@.subrange(off + 8 - i, off + 8),
        decreases 8 - i,
    {
        let b = data[off + 7 - i];
        proof {
            let p = pow256(i as nat);
            lemma_pow256_mono((i + 1) as nat, 8);
            lemma_pow256_eight();
            assert((v as nat) * 256 + (b as nat) < 256 * p) by (nonlinear_arith)
                requires (v as nat) < p, (b as nat) < 256;
            assert(((v as nat) * 256 + (b as nat)) % 256 == b as nat && ((v as nat) * 256 + (b as nat)) / 256
                == v as nat) by (nonlinear_arith)
                requires (b as nat) < 256;
        }
        let nv: u64 = v * 256 + b as u64;
        assert(le_bytes(nv as nat, (i + 1) as nat) =~= data@.subrange(off + 8 - (i + 1), off + 8));
        v = nv;
        i = i + 1;
    }
    v
}

fn push_array<const N: usize>(out: &mut Vec<u8>, src: &[u8; N])
    ensures
        final(out)@ == old(out)@ + src@,
{
    let mut i: usize = 0;
    while i < N
        invariant
            i <= N,
            out@ == old(out)@ + src@.subrange(0, i as int),
        decreases N - i,
    {
        out.push(src[i]);
        i = i + 1;
        assert(out@ =~= old(out)@ + src@.subrange(0, i as int));
    }
    assert(src@.subrange(0, N as int) =~= src@);
}

fn push_u64_le(out: &mut Vec<u8>, x: u64)
    ensures
        final(out)@ == old(out)@ + le_bytes(x as nat, 8),
{
    let mut v: u64 = x;
    let mut i: usize = 0;
    while i < 8
        invariant
            i <= 8,
            out@ + le_bytes(v as nat, (8 - i) as nat) == old(out)@ + le_bytes(x as nat, 8),
        decreases 8 - i,
    {
        let b = (v % 256) as u8;
        assert(le_bytes(v as nat, (8 - i) as nat) == seq![b] + le_bytes((v / 256) as nat, (8 - i - 1) as nat));
        assert(out@.push(b) + le_bytes((v / 256) as nat, (8 - i - 1) as nat) =~= out@ + le_bytes(
            v as nat,
            (8 - i) as nat,
        ));
        out.push(b);
        v = v / 256;
        i = i + 1;
    }
    assert(le_bytes(v as nat, 0) =~= Seq::<u8>::empty());
    assert(out@ =~= out@ + le_bytes(v as nat, 0));
}

impl UserAccount {
    /// The record as it is stored: `tag`, then its fields.
    pub fn to_bytes(&self, tag: &[u8; 8]) -> (r: Vec<u8>)
        ensures
            r@ == account_bytes(tag@, *self),
            r@.len() == USER_ACCOUNT_LEN,
    {
        let mut out: Vec<u8> = Vec::new();
        push_array(&mut out, tag);
        push_array(&mut out, &self.authority);
        push_u64_le(&mut out, self.total_queries);
        push_u64_le(&mut out, self.total_fees_paid);
        push_array(&mut out, &self.last_prompt_hash);
        push_array(&mut out, &self.last_response_hash);
        push_u64_le(&mut out, self.last_log_slot);
        out.push(self.bump);
        proof {
            lemma_le_bytes_len(self.total_queries as nat, 8);
            lemma_le_bytes_len(self.total_fees_paid as nat, 8);
            lemma_le_bytes_len(self.last_log_slot as nat, 8);
        }
        assert(out@ =~= account_bytes(tag@, *self));
        out
    }
    /// The record stored in `data` under the type tag `tag`: present exactly
    /// when `data` holds a whole record and opens with `tag`. Bytes after the
    /// record are ignored.
    pub fn from_bytes(data: &[u8], tag: &[u8; 8]) -> (r: Option<UserAccount>)
        ensures
            r is Some <==> (data@.len() >= USER_ACCOUNT_LEN && data@.subrange(0, 8) == tag@),
            r matches Some(a) ==> account_bytes(tag@, a) == data@.subrange(0, USER_ACCOUNT_LEN as int),
    {
        if data.len() < USER_ACCOUNT_LEN {
            return None;
        }
        let mut i: usize = 0;
        while i < DISCRIMINATOR_LEN
            invariant
                i <= 8,
                data@.len() >= USER_ACCOUNT_LEN,
                forall|j: int| 0 <= j < i ==> data@[j] == tag@[j],
            decreases 8 - i,
        {
            if data[i] != tag[i] {
                assert(data@.subrange(0, 8)[i as int] != tag@[i as int]);
                return None;
            }
            i = i + 1;
        }
        assert(data@.subrange(0, 8) =~= tag@);
        let a = UserAccount {
            authority: read_array32(data, 8),
            total_queries: read_u64_le(data, 40),
            total_fees_paid: read_u64_le(data, 48),
            last_prompt_hash: read_array32(data, 56),
            last_response_hash: read_array32(data, 88),
            last_log_slot: read_u64_le(data, 120),
            bump: data[128],
        };
        assert(account_bytes(tag@, a) =~= data@.subrange(0, USER_ACCOUNT_LEN as int));
        Some(a)
    }
}

/// Records are stored without loss: the stored form of a record determines
/// it, so reading back what was written gives the record that was written.
pub proof fn lemma_layout_round_trip(tag: Seq<u8>, a: UserAccount, b: UserAccount)
    requires
        account_bytes(tag, a) == account_bytes(tag, b),
    ensures
        a == b,
{
    let s = account_bytes(tag, a);
    let t = account_bytes(tag, b);
    let k = tag.len() as int;
    lemma_le_bytes_len(a.total_queries as nat, 8);
    lemma_le_bytes_len(a.total_fees_paid as nat, 8);
    lemma_le_bytes_len(a.last_log_slot as nat, 8);
    lemma_le_bytes_len(b.total_queries as nat, 8);
    lemma_le_bytes_len(b.total_fees_paid as nat, 8);
    lemma_le_bytes_len(b.last_log_slot as nat, 8);
    lemma_pow256_eight();
    assert(s.subrange(k, k + 32) =~= a.authority@);
    assert(t.subrange(k, k + 32) =~= b.authority@);
    assert(s.subrange(k + 32, k + 40) =~= le_bytes(a.total_queries as nat, 8));
    assert(t.subrange(k + 32, k + 40) =~= le_bytes(b.total_queries as nat, 8));
    assert(s.subrange(k + 40, k + 48) =~= le_bytes(a.total_fees_paid as nat, 8));
    assert(t.subrange(k + 40, k + 48) =~= le_bytes(b.total_fees_paid as nat, 8));
    assert(s.subrange(k + 48, k + 80) =~= a.last_prompt_hash@);
    assert(t.subrange(k + 48, k + 80) =~= b.last_prompt_hash@);
    assert(s.subrange(k + 80, k + 112) =~= a.last_response_hash@);
    assert(t.subrange(k + 80, k + 112) =~= b.last_response_hash@);
    assert(s.subrange(k + 112, k + 120) =~= le_bytes(a.last_log_slot as nat, 8));
    assert(t.subrange(k + 112, k + 120) =~= le_bytes(b.last_log_slot as nat, 8));
    assert(s[k + 120] == a.bump);
    assert(t[k + 120] == b.bump);
    lemma_le_bytes_injective(a.total_queries as nat, b.total_queries as nat, 8);
    lemma_le_bytes_injective(a.total_fees_paid as nat, b.total_fees_paid as nat, 8);
    lemma_le_bytes_injective(a.last_log_slot as nat, b.last_log_slot as nat, 8);
    assert(a.authority =~= b.authority);
    assert(a.last_prompt_hash =~= b.last_prompt_hash);
    assert(a.last_response_hash =~= b.last_response_hash);
}

} // verus!
