//! How an image is cut into flash pages.
//!
//! An image of `len` bytes is written in pages of `page_size` bytes. Page `k` starts at
//! byte `k * page_size`; every page is full but the last, which holds what is left and is
//! never empty. Flash is addressed in 16-bit words, so a page that starts at byte `b` is
//! announced to the bootloader by the word address `b / 2`.

use vstd::prelude::*;

verus! {

/// The largest image whose every page start still has a 16-bit word address.
pub const MAX_IMAGE_BYTES: usize = 0x2_0000;

/// The number of pages of an image: `len / page_size`, rounded up.
pub open spec fn page_count(len: nat, page_size: nat) -> nat {
    if page_size == 0 {
        0
    } else {
        ((len + page_size - 1) / (page_size as int)) as nat
    }
}

/// The byte offset at which page `k` starts.
pub open spec fn page_start(k: nat, page_size: nat) -> nat {
    k * page_size
}

/// The byte offset just past page `k`.
pub open spec fn page_end(k: nat, len: nat, page_size: nat) -> nat {
    if (k + 1) * page_size <= len {
        (k + 1) * page_size
    } else {
        len
    }
}

/// The bytes of page `k`.
pub open spec fn page_bytes(image: Seq<u8>, page_size: nat, k: nat) -> Seq<u8> {
    image.subrange(page_start(k, page_size) as int, page_end(k, image.len(), page_size) as int)
}

/// The word address that stands for a byte address.
pub open spec fn word_address(byte_address: nat) -> nat {
    byte_address / 2
}

/// The number of bytes in the first `n` pages together.
pub open spec fn bytes_in_pages(len: nat, page_size: nat, n: nat) -> nat
    decreases n,
{
    if n == 0 {
        0
    } else {
        (bytes_in_pages(len, page_size, (n - 1) as nat) + page_end((n - 1) as nat, len, page_size) - page_start(
            (n - 1) as nat,
            page_size,
        )) as nat
    }
}

/// `page_count` is the rounded-up quotient: it is the one `n` with
/// `(n - 1) * page_size < len <= n * page_size`, and 0 for an empty image.
pub proof fn lemma_page_count_is_ceiling(len: nat, page_size: nat)
    requires
        page_size > 0,
    ensures
        len <= page_count(len, page_size) * page_size,
        len > 0 ==> (page_count(len, page_size) - 1) * page_size < len,
        len == 0 ==> page_count(len, page_size) == 0,
{
    let x = (len + page_size - 1) as int;
    let d = page_size as int;
    let q = x / d;
    assert(x == d * q + x % d && 0 <= x % d < d) by {
        vstd::arithmetic::div_mod::lemma_fundamental_div_mod(x, d);
        vstd::arithmetic::div_mod::lemma_mod_bound(x, d);
    }
    assert(q >= 0) by {
        vstd::arithmetic::div_mod::lemma_div_pos_is_pos(x, d);
    }
    assert((q - 1) * d == q * d - d) by (nonlinear_arith);
    if len == 0 {
        assert(q == 0) by {
            vstd::arithmetic::div_mod::lemma_basic_div(x, d);
        }
    }
}

/// A number of whole pages that stays below the image's length is the number of a page.
pub proof fn lemma_page_in_range(len: nat, page_size: nat, k: nat)
    requires
        page_size > 0,
    ensures
        k * page_size < len <==> k < page_count(len, page_size),
{
    lemma_page_count_is_ceiling(len, page_size);
    let n = page_count(len, page_size);
    if k < n {
        assert(k * page_size <= (n - 1) * page_size) by (nonlinear_arith)
            requires
                k <= n - 1,
                page_size > 0,
        ;
    } else {
        assert(n * page_size <= k * page_size) by (nonlinear_arith)
            requires
                n <= k,
                page_size > 0,
        ;
    }
}

/// Where page `k` lies: inside the image, not empty, at most one page long, full
/// unless it is the last, and ending where the image ends if it is the last.
pub proof fn lemma_page_bounds(len: nat, page_size: nat, k: nat)
    requires
        page_size > 0,
        k < page_count(len, page_size),
    ensures
        page_start(k, page_size) < page_end(k, len, page_size) <= len,
        page_end(k, len, page_size) - page_start(k, page_size) <= page_size,
        k + 1 < page_count(len, page_size) ==> page_end(k, len, page_size) == page_start(k + 1, page_size),
        k + 1 == page_count(len, page_size) ==> page_end(k, len, page_size) == len,
{
    lemma_page_in_range(len, page_size, k);
    lemma_page_in_range(len, page_size, k + 1);
    lemma_page_count_is_ceiling(len, page_size);
    assert((k + 1) * page_size == k * page_size + page_size) by (nonlinear_arith);
}

/// The first `n` pages together hold the bytes before page `n`; all pages together hold
/// the whole image.
pub proof fn lemma_bytes_in_pages(len: nat, page_size: nat, n: nat)
    requires
        page_size > 0,
        n <= page_count(len, page_size),
    ensures
        n < page_count(len, page_size) ==> bytes_in_pages(len, page_size, n) == page_start(n, page_size),
        n == page_count(len, page_size) ==> bytes_in_pages(len, page_size, n) == len,
    decreases n,
{
    if n == 0 {
        lemma_page_count_is_ceiling(len, page_size);
    } else {
        let k = (n - 1) as nat;
        lemma_bytes_in_pages(len, page_size, k);
        lemma_page_bounds(len, page_size, k);
    }
}

/// The number of pages of an image of `len` bytes.
pub fn count_pages(len: usize, page_size: u16) -> (n: usize)
    requires
        page_size > 0,
    ensures
        n == page_count(len as nat, page_size as nat),
{
    let whole = len / (page_size as usize);
    let rest = len % (page_size as usize);
    proof {
        let d = page_size as int;
        let x = len as int;
        assert(x == d * (x / d) + x % d && 0 <= x % d < d) by {
            vstd::arithmetic::div_mod::lemma_fundamental_div_mod(x, d);
            vstd::arithmetic::div_mod::lemma_mod_bound(x, d);
        }
        let q = x / d;
        assert((q + 1) * d == d * q + d) by (nonlinear_arith);
        assert(0 <= q) by {
            vstd::arithmetic::div_mod::lemma_div_pos_is_pos(x, d);
        }
        assert(q <= d * q) by (nonlinear_arith)
            requires
                0 <= q,
                1 <= d,
        ;
        if x % d == 0 {
            vstd::arithmetic::div_mod::lemma_fundamental_div_mod_converse(x + d - 1, d, q, d - 1);
        } else {
            vstd::arithmetic::div_mod::lemma_fundamental_div_mod_converse(x + d - 1, d, q + 1, x % d - 1);
        }
    }
    if rest == 0 {
        whole
    } else {
        whole + 1
    }
}

/// The offset just past the page that starts at `byte_addr`: one page further, or the
/// end of the image where less than a page is left.
pub fn end_of_page(len: usize, page_size: u16, byte_addr: usize) -> (end: usize)
    requires
        byte_addr <= len,
    ensures
        end == if byte_addr + page_size <= len {
            byte_addr + page_size
        } else {
            len as int
        },
{
    if len - byte_addr >= page_size as usize {
        byte_addr + page_size as usize
    } else {
        len
    }
}

} // verus!
