//! The row format: an order document as one canonical JSON text, the form
//! this process writes to the store's `data` column, and the decoder that
//! reconstructs a document from it.
//!
//! The encoding is canonical: fields in declaration order, no whitespace,
//! strings escaped minimally (`\"`, `\\`, and `\u00..` for control
//! characters). The decoder accepts what the encoder emits; its contract
//! states that decoding any canonical encoding yields the encoded document.
use vstd::prelude::*;

use crate::model::{Delivery, DeliveryView, Item, ItemView, Order, OrderView, Payment, PaymentView};
use crate::strutil::{chars_to_string, push_char, str_to_chars};

verus! {

/// Decimal digit character of a value below ten.
pub open spec fn dec_digit(n: int) -> char {
    if n == 0 {
        '0'
    } else if n == 1 {
        '1'
    } else if n == 2 {
        '2'
    } else if n == 3 {
        '3'
    } else if n == 4 {
        '4'
    } else if n == 5 {
        '5'
    } else if n == 6 {
        '6'
    } else if n == 7 {
        '7'
    } else if n == 8 {
        '8'
    } else {
        '9'
    }
}

/// Lower-case hexadecimal digit character of a value below sixteen.
pub open spec fn hex_digit(n: int) -> char {
    if n < 10 {
        dec_digit(n)
    } else if n == 10 {
        'a'
    } else if n == 11 {
        'b'
    } else if n == 12 {
        'c'
    } else if n == 13 {
        'd'
    } else if n == 14 {
        'e'
    } else {
        'f'
    }
}

/// How one character appears inside a JSON string: itself, or an escape.
pub open spec fn esc_char(c: char) -> Seq<char> {
    if c == '"' {
        seq!['\\', '"']
    } else if c == '\\' {
        seq!['\\', '\\']
    } else if (c as u32) < 32 {
        seq!['\\', 'u', '0', '0', hex_digit((c as u32) as int / 16), hex_digit((c as u32) as int % 16)]
    } else {
        seq![c]
    }
}

/// A run of characters escaped for a JSON string body.
pub open spec fn esc(s: Seq<char>) -> Seq<char>
    decreases s.len(),
{
    if s.len() == 0 {
        Seq::empty()
    } else {
        esc_char(s[0]) + esc(s.drop_first())
    }
}

/// A JSON string: quote, escaped body, quote.
pub open spec fn enc_str(s: Seq<char>) -> Seq<char> {
    seq!['"'] + esc(s) + seq!['"']
}

/// A JSON number: the decimal digits of the value, no leading zeros.
pub open spec fn enc_u32(n: nat) -> Seq<char>
    decreases n,
{
    if n < 10 {
        seq![dec_digit(n as int)]
    } else {
        enc_u32(n / 10).push(dec_digit((n % 10) as int))
    }
}

/// Escaping distributes over appending one character.
pub proof fn lemma_esc_snoc(t: Seq<char>, c: char)
    ensures
        esc(t.push(c)) == esc(t) + esc_char(c),
    decreases t.len(),
{
    let u = t.push(c);
    assert(u.len() == t.len() + 1);
    if t.len() == 0 {
        assert(u[0] == c);
        assert(u.drop_first() =~= Seq::<char>::empty());
        assert(esc(u) == esc_char(c) + esc(u.drop_first()));
        assert(esc(u.drop_first()) == Seq::<char>::empty());
        assert(esc(t) == Seq::<char>::empty());
        assert(esc(u) =~= esc(t) + esc_char(c));
    } else {
        assert(u[0] == t[0]);
        assert(u.drop_first() =~= t.drop_first().push(c));
        lemma_esc_snoc(t.drop_first(), c);
        assert(esc(u) == esc_char(t[0]) + (esc(t.drop_first()) + esc_char(c)));
        assert(esc(t) == esc_char(t[0]) + esc(t.drop_first()));
        assert(esc(u) =~= esc(t) + esc_char(c));
    }
}


/// Concatenation associates: pulling the front piece out of a chain.
pub proof fn lemma_add_assoc(a: Seq<char>, b: Seq<char>, c: Seq<char>)
    ensures
        (a + b) + c == a + (b + c),
{
    assert((a + b) + c =~= a + (b + c));
}

/// Decimal digit character of a value below ten.
fn dec_digit_char(d: u32) -> (c: char)
    requires
        d < 10,
    ensures
        c == dec_digit(d as int),
{
    match d {
        0 => '0',
        1 => '1',
        2 => '2',
        3 => '3',
        4 => '4',
        5 => '5',
        6 => '6',
        7 => '7',
        8 => '8',
        _ => '9',
    }
}

/// Lower-case hexadecimal digit character of a value below sixteen.
fn hex_digit_char(d: u32) -> (c: char)
    requires
        d < 16,
    ensures
        c == hex_digit(d as int),
{
    match d {
        0 => '0',
        1 => '1',
        2 => '2',
        3 => '3',
        4 => '4',
        5 => '5',
        6 => '6',
        7 => '7',
        8 => '8',
        9 => '9',
        10 => 'a',
        11 => 'b',
        12 => 'c',
        13 => 'd',
        14 => 'e',
        _ => 'f',
    }
}

/// Appends the characters of a literal.
fn push_lit(out: &mut Vec<char>, lit: &str)
    ensures
        final(out)@ == old(out)@ + lit@,
{
    let cs = str_to_chars(lit);
    let n = cs.len();
    let mut i: usize = 0;
    while i < n
        invariant
            n == cs@.len(),
            cs@ == lit@,
            i <= n,
            out@ =~= old(out)@ + lit@.take(i as int),
        decreases n - i,
    {
        out.push(cs[i]);
        i = i + 1;
    }
    proof {
        assert(old(out)@ + lit@.take(n as int) =~= old(out)@ + lit@);
    }
}

/// Appends the escape of one character.
fn push_esc_char(out: &mut Vec<char>, c: char)
    ensures
        final(out)@ == old(out)@ + esc_char(c),
{
    if c == '"' {
        out.push('\\');
        out.push('"');
        proof {
            assert(out@ =~= old(out)@ + esc_char(c));
        }
    } else if c == '\\' {
        out.push('\\');
        out.push('\\');
        proof {
            assert(out@ =~= old(out)@ + esc_char(c));
        }
    } else {
        let code = c as u32;
        if code < 32 {
            out.push('\\');
            out.push('u');
            out.push('0');
            out.push('0');
            out.push(hex_digit_char(code / 16));
            out.push(hex_digit_char(code % 16));
            proof {
                assert(out@ =~= old(out)@ + esc_char(c));
            }
        } else {
            out.push(c);
            proof {
                assert(out@ =~= old(out)@ + esc_char(c));
            }
        }
    }
}

/// Appends a string field value as a JSON string.
fn push_quoted(out: &mut Vec<char>, s: &String)
    ensures
        final(out)@ == old(out)@ + enc_str(s@),
{
    out.push('"');
    let cs = str_to_chars(s.as_str());
    let n = cs.len();
    let mut i: usize = 0;
    while i < n
        invariant
            n == cs@.len(),
            cs@ == s@,
            i <= n,
            out@ =~= old(out)@ + seq!['"'] + esc(s@.take(i as int)),
        decreases n - i,
    {
        push_esc_char(out, cs[i]);
        proof {
            assert(s@.take(i + 1).drop_last() =~= s@.take(i as int));
            assert(s@.take(i + 1) =~= s@.take(i as int).push(s@[i as int]));
            lemma_esc_snoc(s@.take(i as int), s@[i as int]);
            assert(out@ =~= old(out)@ + seq!['"'] + esc(s@.take(i + 1)));
        }
        i = i + 1;
    }
    out.push('"');
    proof {
        assert(s@.take(n as int) =~= s@);
        assert(out@ =~= old(out)@ + enc_str(s@));
    }
}

/// Appends a numeric field value as a JSON number.
fn push_u32v(out: &mut Vec<char>, n: u32)
    ensures
        final(out)@ == old(out)@ + enc_u32(n as nat),
    decreases n,
{
    if n < 10 {
        out.push(dec_digit_char(n));
        proof {
            assert(out@ =~= old(out)@ + enc_u32(n as nat));
        }
    } else {
        push_u32v(out, n / 10);
        out.push(dec_digit_char(n % 10));
        proof {
            assert(out@ =~= old(out)@ + enc_u32(n as nat));
        }
    }
}

/// The canonical JSON object of a delivery sub-document.
#[verifier::opaque]
pub open spec fn enc_delivery(d: DeliveryView) -> Seq<char> {
    "{\"name\":"@ + (enc_str(d.name) + (",\"phone\":"@ + (enc_str(d.phone) + (",\"zip\":"@ + (
    enc_str(d.zip) + (",\"city\":"@ + (enc_str(d.city) + (",\"address\":"@ + (enc_str(d.address)
        + (",\"region\":"@ + (enc_str(d.region) + (",\"email\":"@ + (enc_str(d.email)
        + "}"@)))))))))))))
}

/// The canonical JSON object of a payment sub-document.
#[verifier::opaque]
pub open spec fn enc_payment(p: PaymentView) -> Seq<char> {
    "{\"transaction\":"@ + (enc_str(p.transaction) + (",\"request_id\":"@ + (enc_str(p.request_id)
        + (",\"currency\":"@ + (enc_str(p.currency) + (",\"provider\":"@ + (enc_str(p.provider) + (
    ",\"amount\":"@ + (enc_u32(p.amount as nat) + (",\"payment_dt\":"@ + (enc_u32(
        p.payment_dt as nat,
    ) + (",\"bank\":"@ + (enc_str(p.bank) + (",\"delivery_cost\":"@ + (enc_u32(
        p.delivery_cost as nat,
    ) + (",\"goods_total\":"@ + (enc_u32(p.goods_total as nat) + (",\"custom_fee\":"@ + (enc_u32(
        p.custom_fee as nat,
    ) + "}"@)))))))))))))))))))
}

/// The canonical JSON object of one line item.
#[verifier::opaque]
pub open spec fn enc_item(it: ItemView) -> Seq<char> {
    "{\"chrt_id\":"@ + (enc_u32(it.chrt_id as nat) + (",\"track_number\":"@ + (enc_str(
        it.track_number,
    ) + (",\"price\":"@ + (enc_u32(it.price as nat) + (",\"rid\":"@ + (enc_str(it.rid) + (
    ",\"name\":"@ + (enc_str(it.name) + (",\"sale\":"@ + (enc_u32(it.sale as nat) + (",\"size\":"@
        + (enc_str(it.size) + (",\"total_price\":"@ + (enc_u32(it.total_price as nat) + (
    ",\"nm_id\":"@ + (enc_u32(it.nm_id as nat) + (",\"brand\":"@ + (enc_str(it.brand) + (
    ",\"status\":"@ + (enc_u32(it.status as nat) + "}"@)))))))))))))))))))))
}

/// The item run after the first: a comma and an item each.
pub open spec fn enc_items_tail(items: Seq<ItemView>) -> Seq<char>
    decreases items.len(),
{
    if items.len() == 0 {
        Seq::empty()
    } else {
        ","@ + (enc_item(items[0]) + enc_items_tail(items.drop_first()))
    }
}

/// The canonical JSON array of the line items.
pub open spec fn enc_items(items: Seq<ItemView>) -> Seq<char> {
    if items.len() == 0 {
        "[]"@
    } else {
        "["@ + (enc_item(items[0]) + (enc_items_tail(items.drop_first()) + "]"@))
    }
}

/// The tail half of a canonical order object: the fields after the
/// line items, and the closing brace.
#[verifier::opaque]
pub open spec fn enc_order_tail(o: OrderView) -> Seq<char> {
    ",\"locale\":"@ + (enc_str(o.locale) + (",\"internal_signature\":"@ + (enc_str(
        o.internal_signature,
    ) + (",\"customer_id\":"@ + (enc_str(o.customer_id) + (",\"delivery_service\":"@ + (
    enc_str(o.delivery_service) + (",\"shared_key\":"@ + (enc_str(o.shared_key) + (
    ",\"sm_id\":"@ + (enc_u32(o.sm_id as nat) + (",\"date_created\":"@ + (enc_str(
        o.date_created,
    ) + (",\"oof_shard\":"@ + (enc_str(o.oof_shard) + "}"@)))))))))))))))
}

/// The canonical JSON object of an order document.
#[verifier::opaque]
pub open spec fn enc_order(o: OrderView) -> Seq<char> {
    "{\"order_uid\":"@ + (enc_str(o.order_uid) + (",\"track_number\":"@ + (enc_str(
        o.track_number,
    ) + (",\"entry\":"@ + (enc_str(o.entry) + (",\"delivery\":"@ + (enc_delivery(o.delivery)
        + (",\"payment\":"@ + (enc_payment(o.payment) + (",\"items\":"@ + (enc_items(o.items)
        + enc_order_tail(o))))))))))))
}

/// Appends the canonical JSON of a delivery sub-document.
fn encode_delivery(out: &mut Vec<char>, d: &Delivery)
    ensures
        final(out)@ == old(out)@ + enc_delivery(d@),
{
    push_lit(out, "{\"name\":");
    push_quoted(out, &d.name);
    push_lit(out, ",\"phone\":");
    push_quoted(out, &d.phone);
    push_lit(out, ",\"zip\":");
    push_quoted(out, &d.zip);
    push_lit(out, ",\"city\":");
    push_quoted(out, &d.city);
    push_lit(out, ",\"address\":");
    push_quoted(out, &d.address);
    push_lit(out, ",\"region\":");
    push_quoted(out, &d.region);
    push_lit(out, ",\"email\":");
    push_quoted(out, &d.email);
    push_lit(out, "}");
    proof {
        reveal(enc_delivery);
        let p0 = old(out)@;
        let x1 = "{\"name\":"@;
        let x2 = enc_str(d@.name);
        let x3 = ",\"phone\":"@;
        let x4 = enc_str(d@.phone);
        let x5 = ",\"zip\":"@;
        let x6 = enc_str(d@.zip);
        let x7 = ",\"city\":"@;
        let x8 = enc_str(d@.city);
        let x9 = ",\"address\":"@;
        let x10 = enc_str(d@.address);
        let x11 = ",\"region\":"@;
        let x12 = enc_str(d@.region);
        let x13 = ",\"email\":"@;
        let x14 = enc_str(d@.email);
        let x15 = "}"@;
        let a1 = p0 + x1;
        let a2 = a1 + x2;
        let a3 = a2 + x3;
        let a4 = a3 + x4;
        let a5 = a4 + x5;
        let a6 = a5 + x6;
        let a7 = a6 + x7;
        let a8 = a7 + x8;
        let a9 = a8 + x9;
        let a10 = a9 + x10;
        let a11 = a10 + x11;
        let a12 = a11 + x12;
        let a13 = a12 + x13;
        let a14 = a13 + x14;
        let a15 = a14 + x15;
        let r15 = x15;
        let r14 = x14 + r15;
        let r13 = x13 + r14;
        let r12 = x12 + r13;
        let r11 = x11 + r12;
        let r10 = x10 + r11;
        let r9 = x9 + r10;
        let r8 = x8 + r9;
        let r7 = x7 + r8;
        let r6 = x6 + r7;
        let r5 = x5 + r6;
        let r4 = x4 + r5;
        let r3 = x3 + r4;
        let r2 = x2 + r3;
        let r1 = x1 + r2;
        assert(out@ == a15);
        lemma_add_assoc(a13, x14, r15);
        lemma_add_assoc(a12, x13, r14);
        lemma_add_assoc(a11, x12, r13);
        lemma_add_assoc(a10, x11, r12);
        lemma_add_assoc(a9, x10, r11);
        lemma_add_assoc(a8, x9, r10);
        lemma_add_assoc(a7, x8, r9);
        lemma_add_assoc(a6, x7, r8);
        lemma_add_assoc(a5, x6, r7);
        lemma_add_assoc(a4, x5, r6);
        lemma_add_assoc(a3, x4, r5);
        lemma_add_assoc(a2, x3, r4);
        lemma_add_assoc(a1, x2, r3);
        lemma_add_assoc(p0, x1, r2);
        assert(out@ == p0 + r1);
        assert(r1 == enc_delivery(d@));
    }
}

/// Appends the canonical JSON of a payment sub-document.
fn encode_payment(out: &mut Vec<char>, p: &Payment)
    ensures
        final(out)@ == old(out)@ + enc_payment(p@),
{
    push_lit(out, "{\"transaction\":");
    push_quoted(out, &p.transaction);
    push_lit(out, ",\"request_id\":");
    push_quoted(out, &p.request_id);
    push_lit(out, ",\"currency\":");
    push_quoted(out, &p.currency);
    push_lit(out, ",\"provider\":");
    push_quoted(out, &p.provider);
    push_lit(out, ",\"amount\":");
    push_u32v(out, p.amount);
    push_lit(out, ",\"payment_dt\":");
    push_u32v(out, p.payment_dt);
    push_lit(out, ",\"bank\":");
    push_quoted(out, &p.bank);
    push_lit(out, ",\"delivery_cost\":");
    push_u32v(out, p.delivery_cost);
    push_lit(out, ",\"goods_total\":");
    push_u32v(out, p.goods_total);
    push_lit(out, ",\"custom_fee\":");
    push_u32v(out, p.custom_fee);
    push_lit(out, "}");
        proof {
        reveal(enc_payment);
            let p0 = old(out)@;
            let x1 = "{\"transaction\":"@;
            let x2 = enc_str(p@.transaction);
            let x3 = ",\"request_id\":"@;
            let x4 = enc_str(p@.request_id);
            let x5 = ",\"currency\":"@;
            let x6 = enc_str(p@.currency);
            let x7 = ",\"provider\":"@;
            let x8 = enc_str(p@.provider);
            let x9 = ",\"amount\":"@;
            let x10 = enc_u32(p@.amount as nat);
            let x11 = ",\"payment_dt\":"@;
            let x12 = enc_u32(p@.payment_dt as nat);
            let x13 = ",\"bank\":"@;
            let x14 = enc_str(p@.bank);
            let x15 = ",\"delivery_cost\":"@;
            let x16 = enc_u32(p@.delivery_cost as nat);
            let x17 = ",\"goods_total\":"@;
            let x18 = enc_u32(p@.goods_total as nat);
            let x19 = ",\"custom_fee\":"@;
            let x20 = enc_u32(p@.custom_fee as nat);
            let x21 = "}"@;
            let a1 = p0 + x1;
            let a2 = a1 + x2;
            let a3 = a2 + x3;
            let a4 = a3 + x4;
            let a5 = a4 + x5;
            let a6 = a5 + x6;
            let a7 = a6 + x7;
            let a8 = a7 + x8;
            let a9 = a8 + x9;
            let a10 = a9 + x10;
            let a11 = a10 + x11;
            let a12 = a11 + x12;
            let a13 = a12 + x13;
            let a14 = a13 + x14;
            let a15 = a14 + x15;
            let a16 = a15 + x16;
            let a17 = a16 + x17;
            let a18 = a17 + x18;
            let a19 = a18 + x19;
            let a20 = a19 + x20;
            let a21 = a20 + x21;
            let r21 = x21;
            let r20 = x20 + r21;
            let r19 = x19 + r20;
            let r18 = x18 + r19;
            let r17 = x17 + r18;
            let r16 = x16 + r17;
            let r15 = x15 + r16;
            let r14 = x14 + r15;
            let r13 = x13 + r14;
            let r12 = x12 + r13;
            let r11 = x11 + r12;
            let r10 = x10 + r11;
            let r9 = x9 + r10;
            let r8 = x8 + r9;
            let r7 = x7 + r8;
            let r6 = x6 + r7;
            let r5 = x5 + r6;
            let r4 = x4 + r5;
            let r3 = x3 + r4;
            let r2 = x2 + r3;
            let r1 = x1 + r2;
            assert(out@ == a21);
            lemma_add_assoc(a19, x20, r21);
            lemma_add_assoc(a18, x19, r20);
            lemma_add_assoc(a17, x18, r19);
            lemma_add_assoc(a16, x17, r18);
            lemma_add_assoc(a15, x16, r17);
            lemma_add_assoc(a14, x15, r16);
            lemma_add_assoc(a13, x14, r15);
            lemma_add_assoc(a12, x13, r14);
            lemma_add_assoc(a11, x12, r13);
            lemma_add_assoc(a10, x11, r12);
            lemma_add_assoc(a9, x10, r11);
            lemma_add_assoc(a8, x9, r10);
            lemma_add_assoc(a7, x8, r9);
            lemma_add_assoc(a6, x7, r8);
            lemma_add_assoc(a5, x6, r7);
            lemma_add_assoc(a4, x5, r6);
            lemma_add_assoc(a3, x4, r5);
            lemma_add_assoc(a2, x3, r4);
            lemma_add_assoc(a1, x2, r3);
            lemma_add_assoc(p0, x1, r2);
            assert(out@ == p0 + r1);
            assert(r1 == enc_payment(p@));
        }
}

/// Appends the canonical JSON of one line item.
fn encode_item(out: &mut Vec<char>, it: &Item)
    ensures
        final(out)@ == old(out)@ + enc_item(it@),
{
    push_lit(out, "{\"chrt_id\":");
    push_u32v(out, it.chrt_id);
    push_lit(out, ",\"track_number\":");
    push_quoted(out, &it.track_number);
    push_lit(out, ",\"price\":");
    push_u32v(out, it.price);
    push_lit(out, ",\"rid\":");
    push_quoted(out, &it.rid);
    push_lit(out, ",\"name\":");
    push_quoted(out, &it.name);
    push_lit(out, ",\"sale\":");
    push_u32v(out, it.sale);
    push_lit(out, ",\"size\":");
    push_quoted(out, &it.size);
    push_lit(out, ",\"total_price\":");
    push_u32v(out, it.total_price);
    push_lit(out, ",\"nm_id\":");
    push_u32v(out, it.nm_id);
    push_lit(out, ",\"brand\":");
    push_quoted(out, &it.brand);
    push_lit(out, ",\"status\":");
    push_u32v(out, it.status);
    push_lit(out, "}");
        proof {
        reveal(enc_item);
            let p0 = old(out)@;
            let x1 = "{\"chrt_id\":"@;
            let x2 = enc_u32(it@.chrt_id as nat);
            let x3 = ",\"track_number\":"@;
            let x4 = enc_str(it@.track_number);
            let x5 = ",\"price\":"@;
            let x6 = enc_u32(it@.price as nat);
            let x7 = ",\"rid\":"@;
            let x8 = enc_str(it@.rid);
            let x9 = ",\"name\":"@;
            let x10 = enc_str(it@.name);
            let x11 = ",\"sale\":"@;
            let x12 = enc_u32(it@.sale as nat);
            let x13 = ",\"size\":"@;
            let x14 = enc_str(it@.size);
            let x15 = ",\"total_price\":"@;
            let x16 = enc_u32(it@.total_price as nat);
            let x17 = ",\"nm_id\":"@;
            let x18 = enc_u32(it@.nm_id as nat);
            let x19 = ",\"brand\":"@;
            let x20 = enc_str(it@.brand);
            let x21 = ",\"status\":"@;
            let x22 = enc_u32(it@.status as nat);
            let x23 = "}"@;
            let a1 = p0 + x1;
            let a2 = a1 + x2;
            let a3 = a2 + x3;
            let a4 = a3 + x4;
            let a5 = a4 + x5;
            let a6 = a5 + x6;
            let a7 = a6 + x7;
            let a8 = a7 + x8;
            let a9 = a8 + x9;
            let a10 = a9 + x10;
            let a11 = a10 + x11;
            let a12 = a11 + x12;
            let a13 = a12 + x13;
            let a14 = a13 + x14;
            let a15 = a14 + x15;
            let a16 = a15 + x16;
            let a17 = a16 + x17;
            let a18 = a17 + x18;
            let a19 = a18 + x19;
            let a20 = a19 + x20;
            let a21 = a20 + x21;
            let a22 = a21 + x22;
            let a23 = a22 + x23;
            let r23 = x23;
            let r22 = x22 + r23;
            let r21 = x21 + r22;
            let r20 = x20 + r21;
            let r19 = x19 + r20;
            let r18 = x18 + r19;
            let r17 = x17 + r18;
            let r16 = x16 + r17;
            let r15 = x15 + r16;
            let r14 = x14 + r15;
            let r13 = x13 + r14;
            let r12 = x12 + r13;
            let r11 = x11 + r12;
            let r10 = x10 + r11;
            let r9 = x9 + r10;
            let r8 = x8 + r9;
            let r7 = x7 + r8;
            let r6 = x6 + r7;
            let r5 = x5 + r6;
            let r4 = x4 + r5;
            let r3 = x3 + r4;
            let r2 = x2 + r3;
            let r1 = x1 + r2;
            assert(out@ == a23);
            lemma_add_assoc(a21, x22, r23);
            lemma_add_assoc(a20, x21, r22);
            lemma_add_assoc(a19, x20, r21);
            lemma_add_assoc(a18, x19, r20);
            lemma_add_assoc(a17, x18, r19);
            lemma_add_assoc(a16, x17, r18);
            lemma_add_assoc(a15, x16, r17);
            lemma_add_assoc(a14, x15, r16);
            lemma_add_assoc(a13, x14, r15);
            lemma_add_assoc(a12, x13, r14);
            lemma_add_assoc(a11, x12, r13);
            lemma_add_assoc(a10, x11, r12);
            lemma_add_assoc(a9, x10, r11);
            lemma_add_assoc(a8, x9, r10);
            lemma_add_assoc(a7, x8, r9);
            lemma_add_assoc(a6, x7, r8);
            lemma_add_assoc(a5, x6, r7);
            lemma_add_assoc(a4, x5, r6);
            lemma_add_assoc(a3, x4, r5);
            lemma_add_assoc(a2, x3, r4);
            lemma_add_assoc(a1, x2, r3);
            lemma_add_assoc(p0, x1, r2);
            assert(out@ == p0 + r1);
            assert(r1 == enc_item(it@));
        }
}

/// Appends the item run after the first, from an index on.
fn encode_items_from(out: &mut Vec<char>, items: &Vec<Item>, i: usize)
    requires
        i <= items.len(),
    ensures
        final(out)@ == old(out)@ + enc_items_tail(items.deep_view().skip(i as int)),
    decreases items.len() - i,
{
    if i < items.len() {
        push_lit(out, ",");
        encode_item(out, &items[i]);
        encode_items_from(out, items, i + 1);
        proof {
            let dv = items.deep_view();
            assert(dv.skip(i as int)[0] == dv[i as int]);
            assert(dv.skip(i as int).drop_first() =~= dv.skip(i + 1));
            assert(out@ =~= old(out)@ + enc_items_tail(dv.skip(i as int)));
        }
    } else {
        proof {
            assert(items.deep_view().skip(i as int) =~= Seq::<ItemView>::empty());
        }
    }
}

/// Appends the canonical JSON array of the line items.
fn encode_items(out: &mut Vec<char>, items: &Vec<Item>)
    ensures
        final(out)@ == old(out)@ + enc_items(items.deep_view()),
{
    if items.len() == 0 {
        push_lit(out, "[]");
    } else {
        push_lit(out, "[");
        encode_item(out, &items[0]);
        encode_items_from(out, items, 1);
        push_lit(out, "]");
        proof {
            assert(items.deep_view().skip(1) =~= items.deep_view().drop_first());
            assert(out@ =~= old(out)@ + enc_items(items.deep_view()));
        }
    }
}

/// The canonical JSON text of an order document: the row this process
/// writes to the store's `data` column.
pub fn encode_order(o: &Order) -> (r: String)
    ensures
        r@ == enc_order(o@),
{
    let mut out: Vec<char> = Vec::new();
    push_lit(&mut out, "{\"order_uid\":");
    push_quoted(&mut out, &o.order_uid);
    push_lit(&mut out, ",\"track_number\":");
    push_quoted(&mut out, &o.track_number);
    push_lit(&mut out, ",\"entry\":");
    push_quoted(&mut out, &o.entry);
    push_lit(&mut out, ",\"delivery\":");
    encode_delivery(&mut out, &o.delivery);
    push_lit(&mut out, ",\"payment\":");
    encode_payment(&mut out, &o.payment);
    push_lit(&mut out, ",\"items\":");
    encode_items(&mut out, &o.items);
    push_lit(&mut out, ",\"locale\":");
    push_quoted(&mut out, &o.locale);
    push_lit(&mut out, ",\"internal_signature\":");
    push_quoted(&mut out, &o.internal_signature);
    push_lit(&mut out, ",\"customer_id\":");
    push_quoted(&mut out, &o.customer_id);
    push_lit(&mut out, ",\"delivery_service\":");
    push_quoted(&mut out, &o.delivery_service);
    push_lit(&mut out, ",\"shared_key\":");
    push_quoted(&mut out, &o.shared_key);
    push_lit(&mut out, ",\"sm_id\":");
    push_u32v(&mut out, o.sm_id);
    push_lit(&mut out, ",\"date_created\":");
    push_quoted(&mut out, &o.date_created);
    push_lit(&mut out, ",\"oof_shard\":");
    push_quoted(&mut out, &o.oof_shard);
    push_lit(&mut out, "}");
    proof {
        reveal(enc_order);
        reveal(enc_order_tail);
        let p0 = Seq::<char>::empty();
        let x1 = "{\"order_uid\":"@;
        let x2 = enc_str(o@.order_uid);
        let x3 = ",\"track_number\":"@;
        let x4 = enc_str(o@.track_number);
        let x5 = ",\"entry\":"@;
        let x6 = enc_str(o@.entry);
        let x7 = ",\"delivery\":"@;
        let x8 = enc_delivery(o@.delivery);
        let x9 = ",\"payment\":"@;
        let x10 = enc_payment(o@.payment);
        let x11 = ",\"items\":"@;
        let x12 = enc_items(o@.items);
        let x13 = ",\"locale\":"@;
        let x14 = enc_str(o@.locale);
        let x15 = ",\"internal_signature\":"@;
        let x16 = enc_str(o@.internal_signature);
        let x17 = ",\"customer_id\":"@;
        let x18 = enc_str(o@.customer_id);
        let x19 = ",\"delivery_service\":"@;
        let x20 = enc_str(o@.delivery_service);
        let x21 = ",\"shared_key\":"@;
        let x22 = enc_str(o@.shared_key);
        let x23 = ",\"sm_id\":"@;
        let x24 = enc_u32(o@.sm_id as nat);
        let x25 = ",\"date_created\":"@;
        let x26 = enc_str(o@.date_created);
        let x27 = ",\"oof_shard\":"@;
        let x28 = enc_str(o@.oof_shard);
        let x29 = "}"@;
        let a1 = p0 + x1;
        let a2 = a1 + x2;
        let a3 = a2 + x3;
        let a4 = a3 + x4;
        let a5 = a4 + x5;
        let a6 = a5 + x6;
        let a7 = a6 + x7;
        let a8 = a7 + x8;
        let a9 = a8 + x9;
        let a10 = a9 + x10;
        let a11 = a10 + x11;
        let a12 = a11 + x12;
        let a13 = a12 + x13;
        let a14 = a13 + x14;
        let a15 = a14 + x15;
        let a16 = a15 + x16;
        let a17 = a16 + x17;
        let a18 = a17 + x18;
        let a19 = a18 + x19;
        let a20 = a19 + x20;
        let a21 = a20 + x21;
        let a22 = a21 + x22;
        let a23 = a22 + x23;
        let a24 = a23 + x24;
        let a25 = a24 + x25;
        let a26 = a25 + x26;
        let a27 = a26 + x27;
        let a28 = a27 + x28;
        let a29 = a28 + x29;
        let r29 = x29;
        let r28 = x28 + r29;
        let r27 = x27 + r28;
        let r26 = x26 + r27;
        let r25 = x25 + r26;
        let r24 = x24 + r25;
        let r23 = x23 + r24;
        let r22 = x22 + r23;
        let r21 = x21 + r22;
        let r20 = x20 + r21;
        let r19 = x19 + r20;
        let r18 = x18 + r19;
        let r17 = x17 + r18;
        let r16 = x16 + r17;
        let r15 = x15 + r16;
        let r14 = x14 + r15;
        let r13 = x13 + r14;
        let r12 = x12 + r13;
        let r11 = x11 + r12;
        let r10 = x10 + r11;
        let r9 = x9 + r10;
        let r8 = x8 + r9;
        let r7 = x7 + r8;
        let r6 = x6 + r7;
        let r5 = x5 + r6;
        let r4 = x4 + r5;
        let r3 = x3 + r4;
        let r2 = x2 + r3;
        let r1 = x1 + r2;
        assert(out@ == a29);
        lemma_add_assoc(a27, x28, r29);
        lemma_add_assoc(a26, x27, r28);
        lemma_add_assoc(a25, x26, r27);
        lemma_add_assoc(a24, x25, r26);
        lemma_add_assoc(a23, x24, r25);
        lemma_add_assoc(a22, x23, r24);
        lemma_add_assoc(a21, x22, r23);
        lemma_add_assoc(a20, x21, r22);
        lemma_add_assoc(a19, x20, r21);
        lemma_add_assoc(a18, x19, r20);
        lemma_add_assoc(a17, x18, r19);
        lemma_add_assoc(a16, x17, r18);
        lemma_add_assoc(a15, x16, r17);
        lemma_add_assoc(a14, x15, r16);
        lemma_add_assoc(a13, x14, r15);
        lemma_add_assoc(a12, x13, r14);
        lemma_add_assoc(a11, x12, r13);
        lemma_add_assoc(a10, x11, r12);
        lemma_add_assoc(a9, x10, r11);
        lemma_add_assoc(a8, x9, r10);
        lemma_add_assoc(a7, x8, r9);
        lemma_add_assoc(a6, x7, r8);
        lemma_add_assoc(a5, x6, r7);
        lemma_add_assoc(a4, x5, r6);
        lemma_add_assoc(a3, x4, r5);
        lemma_add_assoc(a2, x3, r4);
        lemma_add_assoc(a1, x2, r3);
        lemma_add_assoc(p0, x1, r2);
        assert(out@ == p0 + r1);
        assert(r13 == enc_order_tail(o@));
        assert(p0 + r1 =~= r1);
        assert(out@ == enc_order(o@));
    }
    chars_to_string(&out)
}

/// A decimal digit character.
pub open spec fn is_digit(c: char) -> bool {
    48 <= c as u32 <= 57
}

/// A lower-case hexadecimal digit character.
pub open spec fn is_hex(c: char) -> bool {
    is_digit(c) || (97 <= c as u32 <= 102)
}

/// Value of a hexadecimal digit character.
pub open spec fn hex_val(c: char) -> int {
    if is_digit(c) {
        c as u32 - 48
    } else {
        c as u32 - 87
    }
}

/// Reading a JSON string body up to its closing quote: the characters it
/// denotes and how many input characters that took, including the quote.
pub open spec fn unesc(t: Seq<char>) -> Option<(Seq<char>, int)>
    decreases t.len(),
{
    if t.len() == 0 {
        None
    } else if t[0] == '"' {
        Some((Seq::empty(), 1))
    } else if t[0] == '\\' {
        if t.len() >= 2 && (t[1] == '"' || t[1] == '\\') {
            match unesc(t.skip(2)) {
                Some(p) => Some((seq![t[1]] + p.0, 2 + p.1)),
                None => None,
            }
        } else if t.len() >= 6 && t[1] == 'u' && t[2] == '0' && t[3] == '0' && is_hex(t[4])
            && is_hex(t[5]) {
            match unesc(t.skip(6)) {
                Some(p) => Some((seq![(((16 * hex_val(t[4]) + hex_val(t[5])) as u32) as char)] + p.0, 6 + p.1)),
                None => None,
            }
        } else {
            None
        }
    } else {
        match unesc(t.skip(1)) {
            Some(p) => Some((seq![t[0]] + p.0, 1 + p.1)),
            None => None,
        }
    }
}

/// Reading a whole JSON string, opening quote included.
pub open spec fn parse_str_at(t: Seq<char>) -> Option<(Seq<char>, int)> {
    if t.len() > 0 && t[0] == '"' {
        match unesc(t.skip(1)) {
            Some(p) => Some((p.0, 1 + p.1)),
            None => None,
        }
    } else {
        None
    }
}

/// Digit characters have consecutive codes from `'0'`.
pub proof fn lemma_dec_digit_val(m: int)
    requires
        0 <= m < 10,
    ensures
        is_digit(dec_digit(m)),
        dec_digit(m) as u32 == 48 + m,
{
}

/// Hexadecimal digit characters carry their value.
pub proof fn lemma_hex_digit_val(m: int)
    requires
        0 <= m < 16,
    ensures
        is_hex(hex_digit(m)),
        hex_val(hex_digit(m)) == m,
{
}

/// Reading back an escaped body finds the original characters and stops
/// at the closing quote.
pub proof fn lemma_unesc_esc(s: Seq<char>, rest: Seq<char>)
    ensures
        unesc(esc(s) + seq!['"'] + rest) == Some((s, esc(s).len() as int + 1)),
    decreases s.len(),
{
    let t = esc(s) + seq!['"'] + rest;
    if s.len() == 0 {
        assert(t[0] == '"');
        assert(s =~= Seq::<char>::empty());
    } else {
        let c = s[0];
        let s2 = s.drop_first();
        lemma_unesc_esc(s2, rest);
        let t2 = esc(s2) + seq!['"'] + rest;
        assert(esc(s) == esc_char(c) + esc(s2));
        if c == '"' {
            assert(t[0] == '\\' && t[1] == '"');
            assert(t.skip(2) =~= t2);
            assert(seq![t[1]] + s2 =~= s);
            assert(unesc(t) == Some((s, esc(s).len() as int + 1)));
        } else if c == '\\' {
            assert(t[0] == '\\' && t[1] == '\\');
            assert(t.skip(2) =~= t2);
            assert(seq![t[1]] + s2 =~= s);
            assert(unesc(t) == Some((s, esc(s).len() as int + 1)));
        } else if (c as u32) < 32 {
            let h1 = hex_digit((c as u32) as int / 16);
            let h2 = hex_digit((c as u32) as int % 16);
            assert(esc_char(c) == seq!['\\', 'u', '0', '0', h1, h2]);
            assert(t[0] == '\\' && t[1] == 'u' && t[2] == '0' && t[3] == '0' && t[4] == h1
                && t[5] == h2);
            lemma_hex_digit_val((c as u32) as int / 16);
            lemma_hex_digit_val((c as u32) as int % 16);
            assert(t[1] != '"' && t[1] != '\\');
            assert(t.len() >= 6);
            assert(t.skip(6) =~= t2);
            assert(16 * hex_val(h1) + hex_val(h2) == c as u32);
            vstd::utf8::char_u32_cast(c, c as u32);
            assert((((16 * hex_val(t[4]) + hex_val(t[5])) as u32) as char) == c);
            assert(seq![c] + s2 =~= s);
            assert(unesc(t) == Some((s, esc(s).len() as int + 1)));
        } else {
            assert(esc_char(c) == seq![c]);
            assert(t[0] == c);
            assert(t[0] != '"' && t[0] != '\\');
            assert(t.skip(1) =~= t2);
            assert(seq![t[0]] + s2 =~= s);
            assert(unesc(t) == Some((s, esc(s).len() as int + 1)));
        }
    }
}

/// Reading back a whole encoded string.
pub proof fn lemma_parse_enc_str(s: Seq<char>, rest: Seq<char>)
    ensures
        parse_str_at(enc_str(s) + rest) == Some((s, enc_str(s).len() as int)),
{
    let t = enc_str(s) + rest;
    assert(t[0] == '"');
    assert(t.skip(1) =~= esc(s) + seq!['"'] + rest);
    lemma_unesc_esc(s, rest);
}

/// The longest run of digit characters at the front.
pub open spec fn digits_of(t: Seq<char>) -> Seq<char>
    decreases t.len(),
{
    if t.len() == 0 || !is_digit(t[0]) {
        Seq::empty()
    } else {
        seq![t[0]] + digits_of(t.drop_first())
    }
}

/// Value of a run of digit characters.
pub open spec fn num_val(ds: Seq<char>) -> int
    decreases ds.len(),
{
    if ds.len() == 0 {
        0
    } else {
        num_val(ds.drop_last()) * 10 + (ds.last() as u32 - 48)
    }
}

/// Reading a JSON number: its value and how many characters it took.
pub open spec fn parse_num_at(t: Seq<char>) -> Option<(u32, int)> {
    let ds = digits_of(t);
    if ds.len() == 0 {
        None
    } else if num_val(ds) > u32::MAX {
        None
    } else {
        Some((num_val(ds) as u32, ds.len() as int))
    }
}

/// An encoded number consists of digit characters, at least one.
pub proof fn lemma_enc_u32_digits(n: nat)
    ensures
        enc_u32(n).len() >= 1,
        forall|i: int| 0 <= i < enc_u32(n).len() ==> is_digit(#[trigger] enc_u32(n)[i]),
    decreases n,
{
    if n < 10 {
        lemma_dec_digit_val(n as int);
    } else {
        lemma_enc_u32_digits(n / 10);
        lemma_dec_digit_val((n % 10) as int);
    }
}

/// The digit run of an all-digit prefix followed by a non-digit is the
/// prefix itself.
pub proof fn lemma_digits_of_concat(a: Seq<char>, b: Seq<char>)
    requires
        forall|i: int| 0 <= i < a.len() ==> is_digit(#[trigger] a[i]),
        b.len() == 0 || !is_digit(b[0]),
    ensures
        digits_of(a + b) == a,
    decreases a.len(),
{
    if a.len() == 0 {
        assert(a + b =~= b);
        assert(digits_of(a + b) =~= a);
    } else {
        assert((a + b)[0] == a[0]);
        assert((a + b).drop_first() =~= a.drop_first() + b);
        lemma_digits_of_concat(a.drop_first(), b);
        assert(seq![a[0]] + a.drop_first() =~= a);
    }
}

/// The value read back from an encoded number is the number.
pub proof fn lemma_num_val_enc(n: nat)
    ensures
        num_val(enc_u32(n)) == n,
    decreases n,
{
    if n < 10 {
        lemma_dec_digit_val(n as int);
        assert(enc_u32(n).drop_last() =~= Seq::<char>::empty());
        assert(enc_u32(n).last() == dec_digit(n as int));
        assert(num_val(enc_u32(n)) == num_val(Seq::<char>::empty()) * 10 + (dec_digit(
            n as int,
        ) as u32 - 48));
    } else {
        lemma_num_val_enc(n / 10);
        lemma_dec_digit_val((n % 10) as int);
        assert(enc_u32(n).drop_last() =~= enc_u32(n / 10));
        assert(enc_u32(n).last() == dec_digit((n % 10) as int));
        assert(num_val(enc_u32(n)) == num_val(enc_u32(n / 10)) * 10 + (dec_digit(
            (n % 10) as int,
        ) as u32 - 48));
        assert(n / 10 * 10 + n % 10 == n) by (nonlinear_arith);
    }
}

/// Reading back an encoded number, up to the next non-digit.
pub proof fn lemma_parse_enc_u32(n: u32, rest: Seq<char>)
    requires
        rest.len() == 0 || !is_digit(rest[0]),
    ensures
        parse_num_at(enc_u32(n as nat) + rest) == Some((n, enc_u32(n as nat).len() as int)),
{
    lemma_enc_u32_digits(n as nat);
    lemma_digits_of_concat(enc_u32(n as nat), rest);
    lemma_num_val_enc(n as nat);
}

/// Peeling the known front piece off a suffix of the input.
pub proof fn lemma_step(t: Seq<char>, pos: int, a: Seq<char>, b: Seq<char>)
    requires
        0 <= pos <= t.len(),
        t.skip(pos) == a + b,
    ensures
        pos + a.len() <= t.len(),
        t.skip(pos + a.len()) == b,
        a.is_prefix_of(t.skip(pos)),
{
    assert(t.skip(pos).len() == t.len() - pos);
    assert(pos + a.len() <= t.len());
    assert forall|j: int| 0 <= j < b.len() implies t.skip(pos + a.len())[j] == b[j] by {
        assert(t.skip(pos + a.len())[j] == t[pos + a.len() + j]);
        assert(t.skip(pos)[a.len() + j] == t[pos + a.len() + j]);
        assert((a + b)[a.len() + j] == b[j]);
    }
    assert(t.skip(pos + a.len()) =~= b);
    assert(a =~= t.skip(pos).subrange(0, a.len() as int));
}

/// The digit run is the front of the input: it is a prefix made of digit
/// characters, and the character after it, if any, is not a digit.
pub proof fn lemma_digits_of_shape(t: Seq<char>)
    ensures
        digits_of(t).len() <= t.len(),
        digits_of(t) == t.take(digits_of(t).len() as int),
        forall|j: int| 0 <= j < digits_of(t).len() ==> is_digit(#[trigger] t[j]),
        digits_of(t).len() == t.len() || !is_digit(t[digits_of(t).len() as int]),
    decreases t.len(),
{
    if t.len() > 0 && is_digit(t[0]) {
        lemma_digits_of_shape(t.drop_first());
        let l2 = digits_of(t.drop_first()).len() as int;
        assert(digits_of(t) =~= t.take(l2 + 1));
        assert forall|j: int| 0 <= j < digits_of(t).len() implies is_digit(#[trigger] t[j]) by {
            if j > 0 {
                assert(t.drop_first()[j - 1] == t[j]);
            }
        }
        if l2 + 1 < t.len() {
            assert(t.drop_first()[l2] == t[l2 + 1]);
        }
    } else {
        assert(digits_of(t) =~= t.take(0));
    }
}

/// The value of a digit run is non-negative.
pub proof fn lemma_num_val_nonneg(ds: Seq<char>)
    requires
        forall|j: int| 0 <= j < ds.len() ==> is_digit(#[trigger] ds[j]),
    ensures
        num_val(ds) >= 0,
    decreases ds.len(),
{
    if ds.len() > 0 {
        lemma_num_val_nonneg(ds.drop_last());
        assert(num_val(ds.drop_last()) * 10 >= 0) by (nonlinear_arith)
            requires
                num_val(ds.drop_last()) >= 0,
        ;
    }
}

/// Extending a digit run never lowers its value.
pub proof fn lemma_num_val_mono(a: Seq<char>, b: Seq<char>)
    requires
        forall|j: int| 0 <= j < a.len() ==> is_digit(#[trigger] a[j]),
        forall|j: int| 0 <= j < b.len() ==> is_digit(#[trigger] b[j]),
    ensures
        num_val(a + b) >= num_val(a),
    decreases b.len(),
{
    if b.len() == 0 {
        assert(a + b =~= a);
    } else {
        assert((a + b).drop_last() =~= a + b.drop_last());
        assert(forall|j: int| 0 <= j < b.drop_last().len() ==> is_digit(
            #[trigger] b.drop_last()[j],
        ));
        lemma_num_val_mono(a, b.drop_last());
        lemma_num_val_nonneg(a);
        assert(forall|j: int| 0 <= j < (a + b.drop_last()).len() ==> is_digit(
            #[trigger] (a + b.drop_last())[j],
        ));
        lemma_num_val_nonneg(a + b.drop_last());
        let m = num_val(a + b.drop_last());
        assert((a + b).last() == b.last());
        assert(is_digit(b.last()));
        assert(num_val(a + b) == m * 10 + (b.last() as u32 - 48));
        assert(m * 10 >= m) by (nonlinear_arith)
            requires
                m >= 0,
        ;
    }
}

/// Succeeds exactly when the literal sits at this position.
fn expect_lit(v: &Vec<char>, pos: usize, lit: &str) -> (r: Option<usize>)
    requires
        pos <= v@.len(),
    ensures
        match r {
            Some(j) => j == pos + lit@.len() && j <= v@.len(),
            None => !lit@.is_prefix_of(v@.skip(pos as int)),
        },
{
    let cs = str_to_chars(lit);
    let n = cs.len();
    let vn = v.len();
    if vn - pos < n {
        proof {
            assert(v@.skip(pos as int).len() < lit@.len());
        }
        return None;
    }
    let mut i: usize = 0;
    while i < n
        invariant
            pos <= v@.len(),
            vn == v@.len(),
            n == cs@.len(),
            cs@ == lit@,
            v@.len() - pos >= n,
            i <= n,
            forall|j: int| 0 <= j < i ==> v@.skip(pos as int)[j] == lit@[j],
        decreases n - i,
    {
        if v[pos + i] != cs[i] {
            proof {
                assert(v@.skip(pos as int)[i as int] == v@[pos + i]);
                assert(!lit@.is_prefix_of(v@.skip(pos as int)));
            }
            return None;
        }
        proof {
            assert(v@.skip(pos as int)[i as int] == v@[pos + i]);
        }
        i = i + 1;
    }
    proof {
        assert(lit@ =~= v@.skip(pos as int).subrange(0, lit@.len() as int));
    }
    Some(pos + n)
}

/// Reads a JSON string at this position; succeeds and consumes exactly
/// what [`parse_str_at`] says.
fn parse_string(v: &Vec<char>, pos: usize) -> (r: Option<(String, usize)>)
    requires
        pos <= v@.len(),
    ensures
        match r {
            Some(p) => {
                &&& parse_str_at(v@.skip(pos as int)) == Some((p.0@, p.1 - pos))
                &&& pos < p.1 <= v@.len()
            },
            None => parse_str_at(v@.skip(pos as int)) is None,
        },
{
    proof {
        assert(v@.skip(pos as int).len() == v@.len() - pos);
        if pos < v@.len() {
            assert(v@.skip(pos as int)[0] == v@[pos as int]);
        }
    }
    if pos >= v.len() || v[pos] != '"' {
        return None;
    }
    proof {
        assert(v@.skip(pos as int).skip(1) =~= v@.skip(pos + 1));
    }
    let ghost t1 = v@.skip(pos + 1);
    let mut out = String::new();
    let mut i: usize = pos + 1;
    loop
        invariant
            pos + 1 <= i <= v@.len(),
            t1 == v@.skip(pos + 1),
            v@[pos as int] == '"',
            v@.skip(pos as int)[0] == '"',
            v@.skip(pos as int).skip(1) == t1,
            v@.skip(pos as int).len() == v@.len() - pos,
            pos < v@.len(),
            match unesc(v@.skip(i as int)) {
                Some(p) => unesc(t1) == Some((out@ + p.0, (i - pos - 1) + p.1)),
                None => unesc(t1) is None,
            },
        decreases v@.len() - i,
    {
        proof {
            if i < v@.len() {
                assert(v@.skip(i as int)[0] == v@[i as int]);
            }
        }
        if i >= v.len() {
            return None;
        }
        let c = v[i];
        if c == '"' {
            proof {
                assert(unesc(v@.skip(i as int)) == Some((Seq::<char>::empty(), 1int)));
                assert(out@ + Seq::<char>::empty() =~= out@);
                assert(unesc(t1) == Some((out@, (i + 1 - pos - 1) as int)));
            }
            return Some((out, i + 1));
        }
        if c == '\\' {
            if v.len() - i < 2 {
                proof {
                    assert(v@.skip(i as int).len() < 2);
                    assert(unesc(v@.skip(i as int)) is None);
                }
                return None;
            }
            let e = v[i + 1];
            proof {
                assert(v@.skip(i as int)[1] == v@[i + 1]);
            }
            if e == '"' || e == '\\' {
                push_char(&mut out, e);
                proof {
                    assert(v@.skip(i as int).skip(2) =~= v@.skip(i + 2));
                    match unesc(v@.skip(i + 2)) {
                        Some(p) => {
                            assert(unesc(v@.skip(i as int)) == Some(
                                (seq![e] + p.0, 2 + p.1),
                            ));
                            assert(out@ + p.0 =~= out@.drop_last() + (seq![e] + p.0));
                        },
                        None => {
                            assert(unesc(v@.skip(i as int)) is None);
                        },
                    }
                }
                i = i + 2;
            } else if e == 'u' {
                if v.len() - i < 6 {
                    proof {
                        assert(v@.skip(i as int).len() < 6);
                        assert(unesc(v@.skip(i as int)) is None);
                    }
                    return None;
                }
                let z1 = v[i + 2];
                let z2 = v[i + 3];
                proof {
                    assert(v@.skip(i as int)[2] == v@[i + 2]);
                    assert(v@.skip(i as int)[3] == v@[i + 3]);
                    assert(v@.skip(i as int)[4] == v@[i + 4]);
                    assert(v@.skip(i as int)[5] == v@[i + 5]);
                }
                if z1 != '0' || z2 != '0' {
                    return None;
                }
                let h1 = match hex_val_char(v[i + 4]) {
                    Some(x) => x,
                    None => {
                        return None;
                    },
                };
                let h2 = match hex_val_char(v[i + 5]) {
                    Some(x) => x,
                    None => {
                        return None;
                    },
                };
                let code: u32 = 16 * h1 + h2;
                let ch = char_from_code(code);
                push_char(&mut out, ch);
                proof {
                    assert(v@.skip(i as int).skip(6) =~= v@.skip(i + 6));
                    match unesc(v@.skip(i + 6)) {
                        Some(p) => {
                            assert(unesc(v@.skip(i as int)) == Some(
                                (seq![ch] + p.0, 6 + p.1),
                            ));
                            assert(out@ + p.0 =~= out@.drop_last() + (seq![ch] + p.0));
                        },
                        None => {
                            assert(unesc(v@.skip(i as int)) is None);
                        },
                    }
                }
                i = i + 6;
            } else {
                proof {
                    assert(unesc(v@.skip(i as int)) is None);
                }
                return None;
            }
        } else {
            push_char(&mut out, c);
            proof {
                assert(v@.skip(i as int).skip(1) =~= v@.skip(i + 1));
                match unesc(v@.skip(i + 1)) {
                    Some(p) => {
                        assert(unesc(v@.skip(i as int)) == Some((seq![c] + p.0, 1 + p.1)));
                        assert(out@ + p.0 =~= out@.drop_last() + (seq![c] + p.0));
                    },
                    None => {
                        assert(unesc(v@.skip(i as int)) is None);
                    },
                }
            }
            i = i + 1;
        }
    }
}

/// Value of one hexadecimal digit character, if it is one.
fn hex_val_char(c: char) -> (r: Option<u32>)
    ensures
        match r {
            Some(x) => is_hex(c) && x == hex_val(c) && x < 16,
            None => !is_hex(c),
        },
{
    let u = c as u32;
    if 48 <= u && u <= 57 {
        Some(u - 48)
    } else if 97 <= u && u <= 102 {
        Some(u - 87)
    } else {
        None
    }
}

/// Relies on char::from_u32: a code below the surrogate range is the code
/// point of exactly one character.
#[verifier::external_body]
fn char_from_code(code: u32) -> (r: char)
    requires
        code < 0xD800,
    ensures
        r == (code as char),
{
    char::from_u32(code).unwrap()
}

/// Reads a JSON number at this position; succeeds and consumes exactly
/// what [`parse_num_at`] says.
fn parse_u32(v: &Vec<char>, pos: usize) -> (r: Option<(u32, usize)>)
    requires
        pos <= v@.len(),
    ensures
        match r {
            Some(p) => {
                &&& parse_num_at(v@.skip(pos as int)) == Some((p.0, p.1 - pos))
                &&& pos < p.1 <= v@.len()
            },
            None => parse_num_at(v@.skip(pos as int)) is None,
        },
{
    let ghost t = v@.skip(pos as int);
    proof {
        lemma_digits_of_shape(t);
    }
    let ghost ll = digits_of(t).len() as int;
    let mut i: usize = pos;
    let mut acc: u64 = 0;
    while i < v.len() && is_digit_char(v[i])
        invariant
            pos <= i <= v@.len(),
            t == v@.skip(pos as int),
            digits_of(t).len() <= t.len(),
            digits_of(t) == t.take(ll),
            ll == digits_of(t).len(),
            forall|j: int| 0 <= j < ll ==> is_digit(#[trigger] t[j]),
            ll == t.len() || !is_digit(t[ll]),
            i - pos <= ll,
            acc == num_val(t.take(i - pos)),
            acc <= u32::MAX,
        decreases v@.len() - i,
    {
        proof {
            assert(t[i - pos] == v@[i as int]);
        }
        let d: u64 = (v[i] as u32 - 48) as u64;
        acc = acc * 10 + d;
        proof {
            assert(t.take(i + 1 - pos).drop_last() =~= t.take(i - pos));
            assert(t.take(i + 1 - pos).last() == t[i - pos]);
            if i + 1 - pos <= ll {
                assert(num_val(t.take(i + 1 - pos)) == num_val(t.take(i - pos)) * 10 + (t[i
                    - pos] as u32 - 48));
            }
        }
        i = i + 1;
        if acc > 0xFFFF_FFFFu64 {
            proof {
                assert(i - pos <= ll);
                assert(forall|j: int| 0 <= j < (i - pos) ==> is_digit(
                    #[trigger] t.take(i - pos)[j],
                ));
                let b = digits_of(t).skip(i - pos);
                assert(forall|j: int| 0 <= j < b.len() ==> is_digit(#[trigger] b[j]));
                assert(t.take(i - pos) + b =~= digits_of(t));
                lemma_num_val_mono(t.take(i - pos), b);
                assert(num_val(digits_of(t)) > u32::MAX);
            }
            return None;
        }
    }
    proof {
        if i < v@.len() {
            assert(t[i - pos] == v@[i as int]);
        }
        assert(i - pos == ll);
    }
    if i == pos {
        proof {
            assert(digits_of(t).len() == 0);
        }
        return None;
    }
    proof {
        assert(t.take(ll) == digits_of(t));
        assert(parse_num_at(t) == Some((acc as u32, ll)));
    }
    Some((acc as u32, i))
}

/// Whether a character is a decimal digit.
fn is_digit_char(c: char) -> (r: bool)
    ensures
        r == is_digit(c),
{
    let u = c as u32;
    48 <= u && u <= 57
}

/// Where each piece of a canonical d object sits in the input.
pub proof fn lemma_delivery_shape(t: Seq<char>, pos: int, d: DeliveryView, rest: Seq<char>)
    requires
        0 <= pos <= t.len(),
        t.skip(pos) == enc_delivery(d) + rest,
    ensures
        "{\"name\":"@.is_prefix_of(t.skip(pos)),
        parse_str_at(t.skip(pos + "{\"name\":"@.len())) == Some((d.name, enc_str(d.name).len() as int)),
        ",\"phone\":"@.is_prefix_of(t.skip(pos + "{\"name\":"@.len() + enc_str(d.name).len())),
        parse_str_at(t.skip(pos + "{\"name\":"@.len() + enc_str(d.name).len() + ",\"phone\":"@.len())) == Some((d.phone, enc_str(d.phone).len() as int)),
        ",\"zip\":"@.is_prefix_of(t.skip(pos + "{\"name\":"@.len() + enc_str(d.name).len() + ",\"phone\":"@.len() + enc_str(d.phone).len())),
        parse_str_at(t.skip(pos + "{\"name\":"@.len() + enc_str(d.name).len() + ",\"phone\":"@.len() + enc_str(d.phone).len() + ",\"zip\":"@.len())) == Some((d.zip, enc_str(d.zip).len() as int)),
        ",\"city\":"@.is_prefix_of(t.skip(pos + "{\"name\":"@.len() + enc_str(d.name).len() + ",\"phone\":"@.len() + enc_str(d.phone).len() + ",\"zip\":"@.len() + enc_str(d.zip).len())),
        parse_str_at(t.skip(pos + "{\"name\":"@.len() + enc_str(d.name).len() + ",\"phone\":"@.len() + enc_str(d.phone).len() + ",\"zip\":"@.len() + enc_str(d.zip).len() + ",\"city\":"@.len())) == Some((d.city, enc_str(d.city).len() as int)),
        ",\"address\":"@.is_prefix_of(t.skip(pos + "{\"name\":"@.len() + enc_str(d.name).len() + ",\"phone\":"@.len() + enc_str(d.phone).len() + ",\"zip\":"@.len() + enc_str(d.zip).len() + ",\"city\":"@.len() + enc_str(d.city).len())),
        parse_str_at(t.skip(pos + "{\"name\":"@.len() + enc_str(d.name).len() + ",\"phone\":"@.len() + enc_str(d.phone).len() + ",\"zip\":"@.len() + enc_str(d.zip).len() + ",\"city\":"@.len() + enc_str(d.city).len() + ",\"address\":"@.len())) == Some((d.address, enc_str(d.address).len() as int)),
        ",\"region\":"@.is_prefix_of(t.skip(pos + "{\"name\":"@.len() + enc_str(d.name).len() + ",\"phone\":"@.len() + enc_str(d.phone).len() + ",\"zip\":"@.len() + enc_str(d.zip).len() + ",\"city\":"@.len() + enc_str(d.city).len() + ",\"address\":"@.len() + enc_str(d.address).len())),
        parse_str_at(t.skip(pos + "{\"name\":"@.len() + enc_str(d.name).len() + ",\"phone\":"@.len() + enc_str(d.phone).len() + ",\"zip\":"@.len() + enc_str(d.zip).len() + ",\"city\":"@.len() + enc_str(d.city).len() + ",\"address\":"@.len() + enc_str(d.address).len() + ",\"region\":"@.len())) == Some((d.region, enc_str(d.region).len() as int)),
        ",\"email\":"@.is_prefix_of(t.skip(pos + "{\"name\":"@.len() + enc_str(d.name).len() + ",\"phone\":"@.len() + enc_str(d.phone).len() + ",\"zip\":"@.len() + enc_str(d.zip).len() + ",\"city\":"@.len() + enc_str(d.city).len() + ",\"address\":"@.len() + enc_str(d.address).len() + ",\"region\":"@.len() + enc_str(d.region).len())),
        parse_str_at(t.skip(pos + "{\"name\":"@.len() + enc_str(d.name).len() + ",\"phone\":"@.len() + enc_str(d.phone).len() + ",\"zip\":"@.len() + enc_str(d.zip).len() + ",\"city\":"@.len() + enc_str(d.city).len() + ",\"address\":"@.len() + enc_str(d.address).len() + ",\"region\":"@.len() + enc_str(d.region).len() + ",\"email\":"@.len())) == Some((d.email, enc_str(d.email).len() as int)),
        "}"@.is_prefix_of(t.skip(pos + "{\"name\":"@.len() + enc_str(d.name).len() + ",\"phone\":"@.len() + enc_str(d.phone).len() + ",\"zip\":"@.len() + enc_str(d.zip).len() + ",\"city\":"@.len() + enc_str(d.city).len() + ",\"address\":"@.len() + enc_str(d.address).len() + ",\"region\":"@.len() + enc_str(d.region).len() + ",\"email\":"@.len() + enc_str(d.email).len())),
        pos + "{\"name\":"@.len() + enc_str(d.name).len() + ",\"phone\":"@.len() + enc_str(d.phone).len() + ",\"zip\":"@.len() + enc_str(d.zip).len() + ",\"city\":"@.len() + enc_str(d.city).len() + ",\"address\":"@.len() + enc_str(d.address).len() + ",\"region\":"@.len() + enc_str(d.region).len() + ",\"email\":"@.len() + enc_str(d.email).len() + "}"@.len() == pos + enc_delivery(d).len(),
        pos + "{\"name\":"@.len() + enc_str(d.name).len() + ",\"phone\":"@.len() + enc_str(d.phone).len() + ",\"zip\":"@.len() + enc_str(d.zip).len() + ",\"city\":"@.len() + enc_str(d.city).len() + ",\"address\":"@.len() + enc_str(d.address).len() + ",\"region\":"@.len() + enc_str(d.region).len() + ",\"email\":"@.len() + enc_str(d.email).len() + "}"@.len() <= t.len(),
{
    reveal(enc_delivery);
    let c14 = "}"@;
    let c13 = enc_str(d.email) + c14;
    let c12 = ",\"email\":"@ + c13;
    let c11 = enc_str(d.region) + c12;
    let c10 = ",\"region\":"@ + c11;
    let c9 = enc_str(d.address) + c10;
    let c8 = ",\"address\":"@ + c9;
    let c7 = enc_str(d.city) + c8;
    let c6 = ",\"city\":"@ + c7;
    let c5 = enc_str(d.zip) + c6;
    let c4 = ",\"zip\":"@ + c5;
    let c3 = enc_str(d.phone) + c4;
    let c2 = ",\"phone\":"@ + c3;
    let c1 = enc_str(d.name) + c2;
    let c0 = "{\"name\":"@ + c1;
    assert(enc_delivery(d) == c0);
    lemma_add_assoc("{\"name\":"@, c1, rest);
    lemma_step(t, pos, "{\"name\":"@, c1 + rest);
    lemma_add_assoc(enc_str(d.name), c2, rest);
    lemma_parse_enc_str(d.name, c2 + rest);
    lemma_step(t, pos + "{\"name\":"@.len(), enc_str(d.name), c2 + rest);
    lemma_add_assoc(",\"phone\":"@, c3, rest);
    lemma_step(t, pos + "{\"name\":"@.len() + enc_str(d.name).len(), ",\"phone\":"@, c3 + rest);
    lemma_add_assoc(enc_str(d.phone), c4, rest);
    lemma_parse_enc_str(d.phone, c4 + rest);
    lemma_step(t, pos + "{\"name\":"@.len() + enc_str(d.name).len() + ",\"phone\":"@.len(), enc_str(d.phone), c4 + rest);
    lemma_add_assoc(",\"zip\":"@, c5, rest);
    lemma_step(t, pos + "{\"name\":"@.len() + enc_str(d.name).len() + ",\"phone\":"@.len() + enc_str(d.phone).len(), ",\"zip\":"@, c5 + rest);
    lemma_add_assoc(enc_str(d.zip), c6, rest);
    lemma_parse_enc_str(d.zip, c6 + rest);
    lemma_step(t, pos + "{\"name\":"@.len() + enc_str(d.name).len() + ",\"phone\":"@.len() + enc_str(d.phone).len() + ",\"zip\":"@.len(), enc_str(d.zip), c6 + rest);
    lemma_add_assoc(",\"city\":"@, c7, rest);
    lemma_step(t, pos + "{\"name\":"@.len() + enc_str(d.name).len() + ",\"phone\":"@.len() + enc_str(d.phone).len() + ",\"zip\":"@.len() + enc_str(d.zip).len(), ",\"city\":"@, c7 + rest);
    lemma_add_assoc(enc_str(d.city), c8, rest);
    lemma_parse_enc_str(d.city, c8 + rest);
    lemma_step(t, pos + "{\"name\":"@.len() + enc_str(d.name).len() + ",\"phone\":"@.len() + enc_str(d.phone).len() + ",\"zip\":"@.len() + enc_str(d.zip).len() + ",\"city\":"@.len(), enc_str(d.city), c8 + rest);
    lemma_add_assoc(",\"address\":"@, c9, rest);
    lemma_step(t, pos + "{\"name\":"@.len() + enc_str(d.name).len() + ",\"phone\":"@.len() + enc_str(d.phone).len() + ",\"zip\":"@.len() + enc_str(d.zip).len() + ",\"city\":"@.len() + enc_str(d.city).len(), ",\"address\":"@, c9 + rest);
    lemma_add_assoc(enc_str(d.address), c10, rest);
    lemma_parse_enc_str(d.address, c10 + rest);
    lemma_step(t, pos + "{\"name\":"@.len() + enc_str(d.name).len() + ",\"phone\":"@.len() + enc_str(d.phone).len() + ",\"zip\":"@.len() + enc_str(d.zip).len() + ",\"city\":"@.len() + enc_str(d.city).len() + ",\"address\":"@.len(), enc_str(d.address), c10 + rest);
    lemma_add_assoc(",\"region\":"@, c11, rest);
    lemma_step(t, pos + "{\"name\":"@.len() + enc_str(d.name).len() + ",\"phone\":"@.len() + enc_str(d.phone).len() + ",\"zip\":"@.len() + enc_str(d.zip).len() + ",\"city\":"@.len() + enc_str(d.city).len() + ",\"address\":"@.len() + enc_str(d.address).len(), ",\"region\":"@, c11 + rest);
    lemma_add_assoc(enc_str(d.region), c12, rest);
    lemma_parse_enc_str(d.region, c12 + rest);
    lemma_step(t, pos + "{\"name\":"@.len() + enc_str(d.name).len() + ",\"phone\":"@.len() + enc_str(d.phone).len() + ",\"zip\":"@.len() + enc_str(d.zip).len() + ",\"city\":"@.len() + enc_str(d.city).len() + ",\"address\":"@.len() + enc_str(d.address).len() + ",\"region\":"@.len(), enc_str(d.region), c12 + rest);
    lemma_add_assoc(",\"email\":"@, c13, rest);
    lemma_step(t, pos + "{\"name\":"@.len() + enc_str(d.name).len() + ",\"phone\":"@.len() + enc_str(d.phone).len() + ",\"zip\":"@.len() + enc_str(d.zip).len() + ",\"city\":"@.len() + enc_str(d.city).len() + ",\"address\":"@.len() + enc_str(d.address).len() + ",\"region\":"@.len() + enc_str(d.region).len(), ",\"email\":"@, c13 + rest);
    lemma_add_assoc(enc_str(d.email), c14, rest);
    lemma_parse_enc_str(d.email, c14 + rest);
    lemma_step(t, pos + "{\"name\":"@.len() + enc_str(d.name).len() + ",\"phone\":"@.len() + enc_str(d.phone).len() + ",\"zip\":"@.len() + enc_str(d.zip).len() + ",\"city\":"@.len() + enc_str(d.city).len() + ",\"address\":"@.len() + enc_str(d.address).len() + ",\"region\":"@.len() + enc_str(d.region).len() + ",\"email\":"@.len(), enc_str(d.email), c14 + rest);
    lemma_step(t, pos + "{\"name\":"@.len() + enc_str(d.name).len() + ",\"phone\":"@.len() + enc_str(d.phone).len() + ",\"zip\":"@.len() + enc_str(d.zip).len() + ",\"city\":"@.len() + enc_str(d.city).len() + ",\"address\":"@.len() + enc_str(d.address).len() + ",\"region\":"@.len() + enc_str(d.region).len() + ",\"email\":"@.len() + enc_str(d.email).len(), "}"@, rest);
}

/// Where each piece of a canonical p object sits in the input.
pub proof fn lemma_payment_shape(t: Seq<char>, pos: int, p: PaymentView, rest: Seq<char>)
    requires
        0 <= pos <= t.len(),
        t.skip(pos) == enc_payment(p) + rest,
    ensures
        "{\"transaction\":"@.is_prefix_of(t.skip(pos)),
        parse_str_at(t.skip(pos + "{\"transaction\":"@.len())) == Some((p.transaction, enc_str(p.transaction).len() as int)),
        ",\"request_id\":"@.is_prefix_of(t.skip(pos + "{\"transaction\":"@.len() + enc_str(p.transaction).len())),
        parse_str_at(t.skip(pos + "{\"transaction\":"@.len() + enc_str(p.transaction).len() + ",\"request_id\":"@.len())) == Some((p.request_id, enc_str(p.request_id).len() as int)),
        ",\"currency\":"@.is_prefix_of(t.skip(pos + "{\"transaction\":"@.len() + enc_str(p.transaction).len() + ",\"request_id\":"@.len() + enc_str(p.request_id).len())),
        parse_str_at(t.skip(pos + "{\"transaction\":"@.len() + enc_str(p.transaction).len() + ",\"request_id\":"@.len() + enc_str(p.request_id).len() + ",\"currency\":"@.len())) == Some((p.currency, enc_str(p.currency).len() as int)),
        ",\"provider\":"@.is_prefix_of(t.skip(pos + "{\"transaction\":"@.len() + enc_str(p.transaction).len() + ",\"request_id\":"@.len() + enc_str(p.request_id).len() + ",\"currency\":"@.len() + enc_str(p.currency).len())),
        parse_str_at(t.skip(pos + "{\"transaction\":"@.len() + enc_str(p.transaction).len() + ",\"request_id\":"@.len() + enc_str(p.request_id).len() + ",\"currency\":"@.len() + enc_str(p.currency).len() + ",\"provider\":"@.len())) == Some((p.provider, enc_str(p.provider).len() as int)),
        ",\"amount\":"@.is_prefix_of(t.skip(pos + "{\"transaction\":"@.len() + enc_str(p.transaction).len() + ",\"request_id\":"@.len() + enc_str(p.request_id).len() + ",\"currency\":"@.len() + enc_str(p.currency).len() + ",\"provider\":"@.len() + enc_str(p.provider).len())),
        parse_num_at(t.skip(pos + "{\"transaction\":"@.len() + enc_str(p.transaction).len() + ",\"request_id\":"@.len() + enc_str(p.request_id).len() + ",\"currency\":"@.len() + enc_str(p.currency).len() + ",\"provider\":"@.len() + enc_str(p.provider).len() + ",\"amount\":"@.len())) == Some((p.amount, enc_u32(p.amount as nat).len() as int)),
        ",\"payment_dt\":"@.is_prefix_of(t.skip(pos + "{\"transaction\":"@.len() + enc_str(p.transaction).len() + ",\"request_id\":"@.len() + enc_str(p.request_id).len() + ",\"currency\":"@.len() + enc_str(p.currency).len() + ",\"provider\":"@.len() + enc_str(p.provider).len() + ",\"amount\":"@.len() + enc_u32(p.amount as nat).len())),
        parse_num_at(t.skip(pos + "{\"transaction\":"@.len() + enc_str(p.transaction).len() + ",\"request_id\":"@.len() + enc_str(p.request_id).len() + ",\"currency\":"@.len() + enc_str(p.currency).len() + ",\"provider\":"@.len() + enc_str(p.provider).len() + ",\"amount\":"@.len() + enc_u32(p.amount as nat).len() + ",\"payment_dt\":"@.len())) == Some((p.payment_dt, enc_u32(p.payment_dt as nat).len() as int)),
        ",\"bank\":"@.is_prefix_of(t.skip(pos + "{\"transaction\":"@.len() + enc_str(p.transaction).len() + ",\"request_id\":"@.len() + enc_str(p.request_id).len() + ",\"currency\":"@.len() + enc_str(p.currency).len() + ",\"provider\":"@.len() + enc_str(p.provider).len() + ",\"amount\":"@.len() + enc_u32(p.amount as nat).len() + ",\"payment_dt\":"@.len() + enc_u32(p.payment_dt as nat).len())),
        parse_str_at(t.skip(pos + "{\"transaction\":"@.len() + enc_str(p.transaction).len() + ",\"request_id\":"@.len() + enc_str(p.request_id).len() + ",\"currency\":"@.len() + enc_str(p.currency).len() + ",\"provider\":"@.len() + enc_str(p.provider).len() + ",\"amount\":"@.len() + enc_u32(p.amount as nat).len() + ",\"payment_dt\":"@.len() + enc_u32(p.payment_dt as nat).len() + ",\"bank\":"@.len())) == Some((p.bank, enc_str(p.bank).len() as int)),
        ",\"delivery_cost\":"@.is_prefix_of(t.skip(pos + "{\"transaction\":"@.len() + enc_str(p.transaction).len() + ",\"request_id\":"@.len() + enc_str(p.request_id).len() + ",\"currency\":"@.len() + enc_str(p.currency).len() + ",\"provider\":"@.len() + enc_str(p.provider).len() + ",\"amount\":"@.len() + enc_u32(p.amount as nat).len() + ",\"payment_dt\":"@.len() + enc_u32(p.payment_dt as nat).len() + ",\"bank\":"@.len() + enc_str(p.bank).len())),
        parse_num_at(t.skip(pos + "{\"transaction\":"@.len() + enc_str(p.transaction).len() + ",\"request_id\":"@.len() + enc_str(p.request_id).len() + ",\"currency\":"@.len() + enc_str(p.currency).len() + ",\"provider\":"@.len() + enc_str(p.provider).len() + ",\"amount\":"@.len() + enc_u32(p.amount as nat).len() + ",\"payment_dt\":"@.len() + enc_u32(p.payment_dt as nat).len() + ",\"bank\":"@.len() + enc_str(p.bank).len() + ",\"delivery_cost\":"@.len())) == Some((p.delivery_cost, enc_u32(p.delivery_cost as nat).len() as int)),
        ",\"goods_total\":"@.is_prefix_of(t.skip(pos + "{\"transaction\":"@.len() + enc_str(p.transaction).len() + ",\"request_id\":"@.len() + enc_str(p.request_id).len() + ",\"currency\":"@.len() + enc_str(p.currency).len() + ",\"provider\":"@.len() + enc_str(p.provider).len() + ",\"amount\":"@.len() + enc_u32(p.amount as nat).len() + ",\"payment_dt\":"@.len() + enc_u32(p.payment_dt as nat).len() + ",\"bank\":"@.len() + enc_str(p.bank).len() + ",\"delivery_cost\":"@.len() + enc_u32(p.delivery_cost as nat).len())),
        parse_num_at(t.skip(pos + "{\"transaction\":"@.len() + enc_str(p.transaction).len() + ",\"request_id\":"@.len() + enc_str(p.request_id).len() + ",\"currency\":"@.len() + enc_str(p.currency).len() + ",\"provider\":"@.len() + enc_str(p.provider).len() + ",\"amount\":"@.len() + enc_u32(p.amount as nat).len() + ",\"payment_dt\":"@.len() + enc_u32(p.payment_dt as nat).len() + ",\"bank\":"@.len() + enc_str(p.bank).len() + ",\"delivery_cost\":"@.len() + enc_u32(p.delivery_cost as nat).len() + ",\"goods_total\":"@.len())) == Some((p.goods_total, enc_u32(p.goods_total as nat).len() as int)),
        ",\"custom_fee\":"@.is_prefix_of(t.skip(pos + "{\"transaction\":"@.len() + enc_str(p.transaction).len() + ",\"request_id\":"@.len() + enc_str(p.request_id).len() + ",\"currency\":"@.len() + enc_str(p.currency).len() + ",\"provider\":"@.len() + enc_str(p.provider).len() + ",\"amount\":"@.len() + enc_u32(p.amount as nat).len() + ",\"payment_dt\":"@.len() + enc_u32(p.payment_dt as nat).len() + ",\"bank\":"@.len() + enc_str(p.bank).len() + ",\"delivery_cost\":"@.len() + enc_u32(p.delivery_cost as nat).len() + ",\"goods_total\":"@.len() + enc_u32(p.goods_total as nat).len())),
        parse_num_at(t.skip(pos + "{\"transaction\":"@.len() + enc_str(p.transaction).len() + ",\"request_id\":"@.len() + enc_str(p.request_id).len() + ",\"currency\":"@.len() + enc_str(p.currency).len() + ",\"provider\":"@.len() + enc_str(p.provider).len() + ",\"amount\":"@.len() + enc_u32(p.amount as nat).len() + ",\"payment_dt\":"@.len() + enc_u32(p.payment_dt as nat).len() + ",\"bank\":"@.len() + enc_str(p.bank).len() + ",\"delivery_cost\":"@.len() + enc_u32(p.delivery_cost as nat).len() + ",\"goods_total\":"@.len() + enc_u32(p.goods_total as nat).len() + ",\"custom_fee\":"@.len())) == Some((p.custom_fee, enc_u32(p.custom_fee as nat).len() as int)),
        "}"@.is_prefix_of(t.skip(pos + "{\"transaction\":"@.len() + enc_str(p.transaction).len() + ",\"request_id\":"@.len() + enc_str(p.request_id).len() + ",\"currency\":"@.len() + enc_str(p.currency).len() + ",\"provider\":"@.len() + enc_str(p.provider).len() + ",\"amount\":"@.len() + enc_u32(p.amount as nat).len() + ",\"payment_dt\":"@.len() + enc_u32(p.payment_dt as nat).len() + ",\"bank\":"@.len() + enc_str(p.bank).len() + ",\"delivery_cost\":"@.len() + enc_u32(p.delivery_cost as nat).len() + ",\"goods_total\":"@.len() + enc_u32(p.goods_total as nat).len() + ",\"custom_fee\":"@.len() + enc_u32(p.custom_fee as nat).len())),
        pos + "{\"transaction\":"@.len() + enc_str(p.transaction).len() + ",\"request_id\":"@.len() + enc_str(p.request_id).len() + ",\"currency\":"@.len() + enc_str(p.currency).len() + ",\"provider\":"@.len() + enc_str(p.provider).len() + ",\"amount\":"@.len() + enc_u32(p.amount as nat).len() + ",\"payment_dt\":"@.len() + enc_u32(p.payment_dt as nat).len() + ",\"bank\":"@.len() + enc_str(p.bank).len() + ",\"delivery_cost\":"@.len() + enc_u32(p.delivery_cost as nat).len() + ",\"goods_total\":"@.len() + enc_u32(p.goods_total as nat).len() + ",\"custom_fee\":"@.len() + enc_u32(p.custom_fee as nat).len() + "}"@.len() == pos + enc_payment(p).len(),
        pos + "{\"transaction\":"@.len() + enc_str(p.transaction).len() + ",\"request_id\":"@.len() + enc_str(p.request_id).len() + ",\"currency\":"@.len() + enc_str(p.currency).len() + ",\"provider\":"@.len() + enc_str(p.provider).len() + ",\"amount\":"@.len() + enc_u32(p.amount as nat).len() + ",\"payment_dt\":"@.len() + enc_u32(p.payment_dt as nat).len() + ",\"bank\":"@.len() + enc_str(p.bank).len() + ",\"delivery_cost\":"@.len() + enc_u32(p.delivery_cost as nat).len() + ",\"goods_total\":"@.len() + enc_u32(p.goods_total as nat).len() + ",\"custom_fee\":"@.len() + enc_u32(p.custom_fee as nat).len() + "}"@.len() <= t.len(),
{
    reveal(enc_payment);
    let c20 = "}"@;
    let c19 = enc_u32(p.custom_fee as nat) + c20;
    let c18 = ",\"custom_fee\":"@ + c19;
    let c17 = enc_u32(p.goods_total as nat) + c18;
    let c16 = ",\"goods_total\":"@ + c17;
    let c15 = enc_u32(p.delivery_cost as nat) + c16;
    let c14 = ",\"delivery_cost\":"@ + c15;
    let c13 = enc_str(p.bank) + c14;
    let c12 = ",\"bank\":"@ + c13;
    let c11 = enc_u32(p.payment_dt as nat) + c12;
    let c10 = ",\"payment_dt\":"@ + c11;
    let c9 = enc_u32(p.amount as nat) + c10;
    let c8 = ",\"amount\":"@ + c9;
    let c7 = enc_str(p.provider) + c8;
    let c6 = ",\"provider\":"@ + c7;
    let c5 = enc_str(p.currency) + c6;
    let c4 = ",\"currency\":"@ + c5;
    let c3 = enc_str(p.request_id) + c4;
    let c2 = ",\"request_id\":"@ + c3;
    let c1 = enc_str(p.transaction) + c2;
    let c0 = "{\"transaction\":"@ + c1;
    assert(enc_payment(p) == c0);
    lemma_add_assoc("{\"transaction\":"@, c1, rest);
    lemma_step(t, pos, "{\"transaction\":"@, c1 + rest);
    lemma_add_assoc(enc_str(p.transaction), c2, rest);
    lemma_parse_enc_str(p.transaction, c2 + rest);
    lemma_step(t, pos + "{\"transaction\":"@.len(), enc_str(p.transaction), c2 + rest);
    lemma_add_assoc(",\"request_id\":"@, c3, rest);
    lemma_step(t, pos + "{\"transaction\":"@.len() + enc_str(p.transaction).len(), ",\"request_id\":"@, c3 + rest);
    lemma_add_assoc(enc_str(p.request_id), c4, rest);
    lemma_parse_enc_str(p.request_id, c4 + rest);
    lemma_step(t, pos + "{\"transaction\":"@.len() + enc_str(p.transaction).len() + ",\"request_id\":"@.len(), enc_str(p.request_id), c4 + rest);
    lemma_add_assoc(",\"currency\":"@, c5, rest);
    lemma_step(t, pos + "{\"transaction\":"@.len() + enc_str(p.transaction).len() + ",\"request_id\":"@.len() + enc_str(p.request_id).len(), ",\"currency\":"@, c5 + rest);
    lemma_add_assoc(enc_str(p.currency), c6, rest);
    lemma_parse_enc_str(p.currency, c6 + rest);
    lemma_step(t, pos + "{\"transaction\":"@.len() + enc_str(p.transaction).len() + ",\"request_id\":"@.len() + enc_str(p.request_id).len() + ",\"currency\":"@.len(), enc_str(p.currency), c6 + rest);
    lemma_add_assoc(",\"provider\":"@, c7, rest);
    lemma_step(t, pos + "{\"transaction\":"@.len() + enc_str(p.transaction).len() + ",\"request_id\":"@.len() + enc_str(p.request_id).len() + ",\"currency\":"@.len() + enc_str(p.currency).len(), ",\"provider\":"@, c7 + rest);
    lemma_add_assoc(enc_str(p.provider), c8, rest);
    lemma_parse_enc_str(p.provider, c8 + rest);
    lemma_step(t, pos + "{\"transaction\":"@.len() + enc_str(p.transaction).len() + ",\"request_id\":"@.len() + enc_str(p.request_id).len() + ",\"currency\":"@.len() + enc_str(p.currency).len() + ",\"provider\":"@.len(), enc_str(p.provider), c8 + rest);
    lemma_add_assoc(",\"amount\":"@, c9, rest);
    lemma_step(t, pos + "{\"transaction\":"@.len() + enc_str(p.transaction).len() + ",\"request_id\":"@.len() + enc_str(p.request_id).len() + ",\"currency\":"@.len() + enc_str(p.currency).len() + ",\"provider\":"@.len() + enc_str(p.provider).len(), ",\"amount\":"@, c9 + rest);
    lemma_add_assoc(enc_u32(p.amount as nat), c10, rest);
    reveal_strlit(",\"payment_dt\":");
    assert((c10)[0] == ",\"payment_dt\":"@[0]);
    assert((c10 + rest)[0] == ",\"payment_dt\":"@[0]);
    assert(!is_digit(",\"payment_dt\":"@[0]));
    lemma_parse_enc_u32(p.amount, c10 + rest);
    lemma_step(t, pos + "{\"transaction\":"@.len() + enc_str(p.transaction).len() + ",\"request_id\":"@.len() + enc_str(p.request_id).len() + ",\"currency\":"@.len() + enc_str(p.currency).len() + ",\"provider\":"@.len() + enc_str(p.provider).len() + ",\"amount\":"@.len(), enc_u32(p.amount as nat), c10 + rest);
    lemma_add_assoc(",\"payment_dt\":"@, c11, rest);
    lemma_step(t, pos + "{\"transaction\":"@.len() + enc_str(p.transaction).len() + ",\"request_id\":"@.len() + enc_str(p.request_id).len() + ",\"currency\":"@.len() + enc_str(p.currency).len() + ",\"provider\":"@.len() + enc_str(p.provider).len() + ",\"amount\":"@.len() + enc_u32(p.amount as nat).len(), ",\"payment_dt\":"@, c11 + rest);
    lemma_add_assoc(enc_u32(p.payment_dt as nat), c12, rest);
    reveal_strlit(",\"bank\":");
    assert((c12)[0] == ",\"bank\":"@[0]);
    assert((c12 + rest)[0] == ",\"bank\":"@[0]);
    assert(!is_digit(",\"bank\":"@[0]));
    lemma_parse_enc_u32(p.payment_dt, c12 + rest);
    lemma_step(t, pos + "{\"transaction\":"@.len() + enc_str(p.transaction).len() + ",\"request_id\":"@.len() + enc_str(p.request_id).len() + ",\"currency\":"@.len() + enc_str(p.currency).len() + ",\"provider\":"@.len() + enc_str(p.provider).len() + ",\"amount\":"@.len() + enc_u32(p.amount as nat).len() + ",\"payment_dt\":"@.len(), enc_u32(p.payment_dt as nat), c12 + rest);
    lemma_add_assoc(",\"bank\":"@, c13, rest);
    lemma_step(t, pos + "{\"transaction\":"@.len() + enc_str(p.transaction).len() + ",\"request_id\":"@.len() + enc_str(p.request_id).len() + ",\"currency\":"@.len() + enc_str(p.currency).len() + ",\"provider\":"@.len() + enc_str(p.provider).len() + ",\"amount\":"@.len() + enc_u32(p.amount as nat).len() + ",\"payment_dt\":"@.len() + enc_u32(p.payment_dt as nat).len(), ",\"bank\":"@, c13 + rest);
    lemma_add_assoc(enc_str(p.bank), c14, rest);
    lemma_parse_enc_str(p.bank, c14 + rest);
    lemma_step(t, pos + "{\"transaction\":"@.len() + enc_str(p.transaction).len() + ",\"request_id\":"@.len() + enc_str(p.request_id).len() + ",\"currency\":"@.len() + enc_str(p.currency).len() + ",\"provider\":"@.len() + enc_str(p.provider).len() + ",\"amount\":"@.len() + enc_u32(p.amount as nat).len() + ",\"payment_dt\":"@.len() + enc_u32(p.payment_dt as nat).len() + ",\"bank\":"@.len(), enc_str(p.bank), c14 + rest);
    lemma_add_assoc(",\"delivery_cost\":"@, c15, rest);
    lemma_step(t, pos + "{\"transaction\":"@.len() + enc_str(p.transaction).len() + ",\"request_id\":"@.len() + enc_str(p.request_id).len() + ",\"currency\":"@.len() + enc_str(p.currency).len() + ",\"provider\":"@.len() + enc_str(p.provider).len() + ",\"amount\":"@.len() + enc_u32(p.amount as nat).len() + ",\"payment_dt\":"@.len() + enc_u32(p.payment_dt as nat).len() + ",\"bank\":"@.len() + enc_str(p.bank).len(), ",\"delivery_cost\":"@, c15 + rest);
    lemma_add_assoc(enc_u32(p.delivery_cost as nat), c16, rest);
    reveal_strlit(",\"goods_total\":");
    assert((c16)[0] == ",\"goods_total\":"@[0]);
    assert((c16 + rest)[0] == ",\"goods_total\":"@[0]);
    assert(!is_digit(",\"goods_total\":"@[0]));
    lemma_parse_enc_u32(p.delivery_cost, c16 + rest);
    lemma_step(t, pos + "{\"transaction\":"@.len() + enc_str(p.transaction).len() + ",\"request_id\":"@.len() + enc_str(p.request_id).len() + ",\"currency\":"@.len() + enc_str(p.currency).len() + ",\"provider\":"@.len() + enc_str(p.provider).len() + ",\"amount\":"@.len() + enc_u32(p.amount as nat).len() + ",\"payment_dt\":"@.len() + enc_u32(p.payment_dt as nat).len() + ",\"bank\":"@.len() + enc_str(p.bank).len() + ",\"delivery_cost\":"@.len(), enc_u32(p.delivery_cost as nat), c16 + rest);
    lemma_add_assoc(",\"goods_total\":"@, c17, rest);
    lemma_step(t, pos + "{\"transaction\":"@.len() + enc_str(p.transaction).len() + ",\"request_id\":"@.len() + enc_str(p.request_id).len() + ",\"currency\":"@.len() + enc_str(p.currency).len() + ",\"provider\":"@.len() + enc_str(p.provider).len() + ",\"amount\":"@.len() + enc_u32(p.amount as nat).len() + ",\"payment_dt\":"@.len() + enc_u32(p.payment_dt as nat).len() + ",\"bank\":"@.len() + enc_str(p.bank).len() + ",\"delivery_cost\":"@.len() + enc_u32(p.delivery_cost as nat).len(), ",\"goods_total\":"@, c17 + rest);
    lemma_add_assoc(enc_u32(p.goods_total as nat), c18, rest);
    reveal_strlit(",\"custom_fee\":");
    assert((c18)[0] == ",\"custom_fee\":"@[0]);
    assert((c18 + rest)[0] == ",\"custom_fee\":"@[0]);
    assert(!is_digit(",\"custom_fee\":"@[0]));
    lemma_parse_enc_u32(p.goods_total, c18 + rest);
    lemma_step(t, pos + "{\"transaction\":"@.len() + enc_str(p.transaction).len() + ",\"request_id\":"@.len() + enc_str(p.request_id).len() + ",\"currency\":"@.len() + enc_str(p.currency).len() + ",\"provider\":"@.len() + enc_str(p.provider).len() + ",\"amount\":"@.len() + enc_u32(p.amount as nat).len() + ",\"payment_dt\":"@.len() + enc_u32(p.payment_dt as nat).len() + ",\"bank\":"@.len() + enc_str(p.bank).len() + ",\"delivery_cost\":"@.len() + enc_u32(p.delivery_cost as nat).len() + ",\"goods_total\":"@.len(), enc_u32(p.goods_total as nat), c18 + rest);
    lemma_add_assoc(",\"custom_fee\":"@, c19, rest);
    lemma_step(t, pos + "{\"transaction\":"@.len() + enc_str(p.transaction).len() + ",\"request_id\":"@.len() + enc_str(p.request_id).len() + ",\"currency\":"@.len() + enc_str(p.currency).len() + ",\"provider\":"@.len() + enc_str(p.provider).len() + ",\"amount\":"@.len() + enc_u32(p.amount as nat).len() + ",\"payment_dt\":"@.len() + enc_u32(p.payment_dt as nat).len() + ",\"bank\":"@.len() + enc_str(p.bank).len() + ",\"delivery_cost\":"@.len() + enc_u32(p.delivery_cost as nat).len() + ",\"goods_total\":"@.len() + enc_u32(p.goods_total as nat).len(), ",\"custom_fee\":"@, c19 + rest);
    lemma_add_assoc(enc_u32(p.custom_fee as nat), c20, rest);
    reveal_strlit("}");
    assert((c20)[0] == "}"@[0]);
    assert((c20 + rest)[0] == "}"@[0]);
    assert(!is_digit("}"@[0]));
    lemma_parse_enc_u32(p.custom_fee, c20 + rest);
    lemma_step(t, pos + "{\"transaction\":"@.len() + enc_str(p.transaction).len() + ",\"request_id\":"@.len() + enc_str(p.request_id).len() + ",\"currency\":"@.len() + enc_str(p.currency).len() + ",\"provider\":"@.len() + enc_str(p.provider).len() + ",\"amount\":"@.len() + enc_u32(p.amount as nat).len() + ",\"payment_dt\":"@.len() + enc_u32(p.payment_dt as nat).len() + ",\"bank\":"@.len() + enc_str(p.bank).len() + ",\"delivery_cost\":"@.len() + enc_u32(p.delivery_cost as nat).len() + ",\"goods_total\":"@.len() + enc_u32(p.goods_total as nat).len() + ",\"custom_fee\":"@.len(), enc_u32(p.custom_fee as nat), c20 + rest);
    lemma_step(t, pos + "{\"transaction\":"@.len() + enc_str(p.transaction).len() + ",\"request_id\":"@.len() + enc_str(p.request_id).len() + ",\"currency\":"@.len() + enc_str(p.currency).len() + ",\"provider\":"@.len() + enc_str(p.provider).len() + ",\"amount\":"@.len() + enc_u32(p.amount as nat).len() + ",\"payment_dt\":"@.len() + enc_u32(p.payment_dt as nat).len() + ",\"bank\":"@.len() + enc_str(p.bank).len() + ",\"delivery_cost\":"@.len() + enc_u32(p.delivery_cost as nat).len() + ",\"goods_total\":"@.len() + enc_u32(p.goods_total as nat).len() + ",\"custom_fee\":"@.len() + enc_u32(p.custom_fee as nat).len(), "}"@, rest);
}

/// Where each piece of a canonical it object sits in the input.
pub proof fn lemma_item_shape(t: Seq<char>, pos: int, it: ItemView, rest: Seq<char>)
    requires
        0 <= pos <= t.len(),
        t.skip(pos) == enc_item(it) + rest,
    ensures
        "{\"chrt_id\":"@.is_prefix_of(t.skip(pos)),
        parse_num_at(t.skip(pos + "{\"chrt_id\":"@.len())) == Some((it.chrt_id, enc_u32(it.chrt_id as nat).len() as int)),
        ",\"track_number\":"@.is_prefix_of(t.skip(pos + "{\"chrt_id\":"@.len() + enc_u32(it.chrt_id as nat).len())),
        parse_str_at(t.skip(pos + "{\"chrt_id\":"@.len() + enc_u32(it.chrt_id as nat).len() + ",\"track_number\":"@.len())) == Some((it.track_number, enc_str(it.track_number).len() as int)),
        ",\"price\":"@.is_prefix_of(t.skip(pos + "{\"chrt_id\":"@.len() + enc_u32(it.chrt_id as nat).len() + ",\"track_number\":"@.len() + enc_str(it.track_number).len())),
        parse_num_at(t.skip(pos + "{\"chrt_id\":"@.len() + enc_u32(it.chrt_id as nat).len() + ",\"track_number\":"@.len() + enc_str(it.track_number).len() + ",\"price\":"@.len())) == Some((it.price, enc_u32(it.price as nat).len() as int)),
        ",\"rid\":"@.is_prefix_of(t.skip(pos + "{\"chrt_id\":"@.len() + enc_u32(it.chrt_id as nat).len() + ",\"track_number\":"@.len() + enc_str(it.track_number).len() + ",\"price\":"@.len() + enc_u32(it.price as nat).len())),
        parse_str_at(t.skip(pos + "{\"chrt_id\":"@.len() + enc_u32(it.chrt_id as nat).len() + ",\"track_number\":"@.len() + enc_str(it.track_number).len() + ",\"price\":"@.len() + enc_u32(it.price as nat).len() + ",\"rid\":"@.len())) == Some((it.rid, enc_str(it.rid).len() as int)),
        ",\"name\":"@.is_prefix_of(t.skip(pos + "{\"chrt_id\":"@.len() + enc_u32(it.chrt_id as nat).len() + ",\"track_number\":"@.len() + enc_str(it.track_number).len() + ",\"price\":"@.len() + enc_u32(it.price as nat).len() + ",\"rid\":"@.len() + enc_str(it.rid).len())),
        parse_str_at(t.skip(pos + "{\"chrt_id\":"@.len() + enc_u32(it.chrt_id as nat).len() + ",\"track_number\":"@.len() + enc_str(it.track_number).len() + ",\"price\":"@.len() + enc_u32(it.price as nat).len() + ",\"rid\":"@.len() + enc_str(it.rid).len() + ",\"name\":"@.len())) == Some((it.name, enc_str(it.name).len() as int)),
        ",\"sale\":"@.is_prefix_of(t.skip(pos + "{\"chrt_id\":"@.len() + enc_u32(it.chrt_id as nat).len() + ",\"track_number\":"@.len() + enc_str(it.track_number).len() + ",\"price\":"@.len() + enc_u32(it.price as nat).len() + ",\"rid\":"@.len() + enc_str(it.rid).len() + ",\"name\":"@.len() + enc_str(it.name).len())),
        parse_num_at(t.skip(pos + "{\"chrt_id\":"@.len() + enc_u32(it.chrt_id as nat).len() + ",\"track_number\":"@.len() + enc_str(it.track_number).len() + ",\"price\":"@.len() + enc_u32(it.price as nat).len() + ",\"rid\":"@.len() + enc_str(it.rid).len() + ",\"name\":"@.len() + enc_str(it.name).len() + ",\"sale\":"@.len())) == Some((it.sale, enc_u32(it.sale as nat).len() as int)),
        ",\"size\":"@.is_prefix_of(t.skip(pos + "{\"chrt_id\":"@.len() + enc_u32(it.chrt_id as nat).len() + ",\"track_number\":"@.len() + enc_str(it.track_number).len() + ",\"price\":"@.len() + enc_u32(it.price as nat).len() + ",\"rid\":"@.len() + enc_str(it.rid).len() + ",\"name\":"@.len() + enc_str(it.name).len() + ",\"sale\":"@.len() + enc_u32(it.sale as nat).len())),
        parse_str_at(t.skip(pos + "{\"chrt_id\":"@.len() + enc_u32(it.chrt_id as nat).len() + ",\"track_number\":"@.len() + enc_str(it.track_number).len() + ",\"price\":"@.len() + enc_u32(it.price as nat).len() + ",\"rid\":"@.len() + enc_str(it.rid).len() + ",\"name\":"@.len() + enc_str(it.name).len() + ",\"sale\":"@.len() + enc_u32(it.sale as nat).len() + ",\"size\":"@.len())) == Some((it.size, enc_str(it.size).len() as int)),
        ",\"total_price\":"@.is_prefix_of(t.skip(pos + "{\"chrt_id\":"@.len() + enc_u32(it.chrt_id as nat).len() + ",\"track_number\":"@.len() + enc_str(it.track_number).len() + ",\"price\":"@.len() + enc_u32(it.price as nat).len() + ",\"rid\":"@.len() + enc_str(it.rid).len() + ",\"name\":"@.len() + enc_str(it.name).len() + ",\"sale\":"@.len() + enc_u32(it.sale as nat).len() + ",\"size\":"@.len() + enc_str(it.size).len())),
        parse_num_at(t.skip(pos + "{\"chrt_id\":"@.len() + enc_u32(it.chrt_id as nat).len() + ",\"track_number\":"@.len() + enc_str(it.track_number).len() + ",\"price\":"@.len() + enc_u32(it.price as nat).len() + ",\"rid\":"@.len() + enc_str(it.rid).len() + ",\"name\":"@.len() + enc_str(it.name).len() + ",\"sale\":"@.len() + enc_u32(it.sale as nat).len() + ",\"size\":"@.len() + enc_str(it.size).len() + ",\"total_price\":"@.len())) == Some((it.total_price, enc_u32(it.total_price as nat).len() as int)),
        ",\"nm_id\":"@.is_prefix_of(t.skip(pos + "{\"chrt_id\":"@.len() + enc_u32(it.chrt_id as nat).len() + ",\"track_number\":"@.len() + enc_str(it.track_number).len() + ",\"price\":"@.len() + enc_u32(it.price as nat).len() + ",\"rid\":"@.len() + enc_str(it.rid).len() + ",\"name\":"@.len() + enc_str(it.name).len() + ",\"sale\":"@.len() + enc_u32(it.sale as nat).len() + ",\"size\":"@.len() + enc_str(it.size).len() + ",\"total_price\":"@.len() + enc_u32(it.total_price as nat).len())),
        parse_num_at(t.skip(pos + "{\"chrt_id\":"@.len() + enc_u32(it.chrt_id as nat).len() + ",\"track_number\":"@.len() + enc_str(it.track_number).len() + ",\"price\":"@.len() + enc_u32(it.price as nat).len() + ",\"rid\":"@.len() + enc_str(it.rid).len() + ",\"name\":"@.len() + enc_str(it.name).len() + ",\"sale\":"@.len() + enc_u32(it.sale as nat).len() + ",\"size\":"@.len() + enc_str(it.size).len() + ",\"total_price\":"@.len() + enc_u32(it.total_price as nat).len() + ",\"nm_id\":"@.len())) == Some((it.nm_id, enc_u32(it.nm_id as nat).len() as int)),
        ",\"brand\":"@.is_prefix_of(t.skip(pos + "{\"chrt_id\":"@.len() + enc_u32(it.chrt_id as nat).len() + ",\"track_number\":"@.len() + enc_str(it.track_number).len() + ",\"price\":"@.len() + enc_u32(it.price as nat).len() + ",\"rid\":"@.len() + enc_str(it.rid).len() + ",\"name\":"@.len() + enc_str(it.name).len() + ",\"sale\":"@.len() + enc_u32(it.sale as nat).len() + ",\"size\":"@.len() + enc_str(it.size).len() + ",\"total_price\":"@.len() + enc_u32(it.total_price as nat).len() + ",\"nm_id\":"@.len() + enc_u32(it.nm_id as nat).len())),
        parse_str_at(t.skip(pos + "{\"chrt_id\":"@.len() + enc_u32(it.chrt_id as nat).len() + ",\"track_number\":"@.len() + enc_str(it.track_number).len() + ",\"price\":"@.len() + enc_u32(it.price as nat).len() + ",\"rid\":"@.len() + enc_str(it.rid).len() + ",\"name\":"@.len() + enc_str(it.name).len() + ",\"sale\":"@.len() + enc_u32(it.sale as nat).len() + ",\"size\":"@.len() + enc_str(it.size).len() + ",\"total_price\":"@.len() + enc_u32(it.total_price as nat).len() + ",\"nm_id\":"@.len() + enc_u32(it.nm_id as nat).len() + ",\"brand\":"@.len())) == Some((it.brand, enc_str(it.brand).len() as int)),
        ",\"status\":"@.is_prefix_of(t.skip(pos + "{\"chrt_id\":"@.len() + enc_u32(it.chrt_id as nat).len() + ",\"track_number\":"@.len() + enc_str(it.track_number).len() + ",\"price\":"@.len() + enc_u32(it.price as nat).len() + ",\"rid\":"@.len() + enc_str(it.rid).len() + ",\"name\":"@.len() + enc_str(it.name).len() + ",\"sale\":"@.len() + enc_u32(it.sale as nat).len() + ",\"size\":"@.len() + enc_str(it.size).len() + ",\"total_price\":"@.len() + enc_u32(it.total_price as nat).len() + ",\"nm_id\":"@.len() + enc_u32(it.nm_id as nat).len() + ",\"brand\":"@.len() + enc_str(it.brand).len())),
        parse_num_at(t.skip(pos + "{\"chrt_id\":"@.len() + enc_u32(it.chrt_id as nat).len() + ",\"track_number\":"@.len() + enc_str(it.track_number).len() + ",\"price\":"@.len() + enc_u32(it.price as nat).len() + ",\"rid\":"@.len() + enc_str(it.rid).len() + ",\"name\":"@.len() + enc_str(it.name).len() + ",\"sale\":"@.len() + enc_u32(it.sale as nat).len() + ",\"size\":"@.len() + enc_str(it.size).len() + ",\"total_price\":"@.len() + enc_u32(it.total_price as nat).len() + ",\"nm_id\":"@.len() + enc_u32(it.nm_id as nat).len() + ",\"brand\":"@.len() + enc_str(it.brand).len() + ",\"status\":"@.len())) == Some((it.status, enc_u32(it.status as nat).len() as int)),
        "}"@.is_prefix_of(t.skip(pos + "{\"chrt_id\":"@.len() + enc_u32(it.chrt_id as nat).len() + ",\"track_number\":"@.len() + enc_str(it.track_number).len() + ",\"price\":"@.len() + enc_u32(it.price as nat).len() + ",\"rid\":"@.len() + enc_str(it.rid).len() + ",\"name\":"@.len() + enc_str(it.name).len() + ",\"sale\":"@.len() + enc_u32(it.sale as nat).len() + ",\"size\":"@.len() + enc_str(it.size).len() + ",\"total_price\":"@.len() + enc_u32(it.total_price as nat).len() + ",\"nm_id\":"@.len() + enc_u32(it.nm_id as nat).len() + ",\"brand\":"@.len() + enc_str(it.brand).len() + ",\"status\":"@.len() + enc_u32(it.status as nat).len())),
        pos + "{\"chrt_id\":"@.len() + enc_u32(it.chrt_id as nat).len() + ",\"track_number\":"@.len() + enc_str(it.track_number).len() + ",\"price\":"@.len() + enc_u32(it.price as nat).len() + ",\"rid\":"@.len() + enc_str(it.rid).len() + ",\"name\":"@.len() + enc_str(it.name).len() + ",\"sale\":"@.len() + enc_u32(it.sale as nat).len() + ",\"size\":"@.len() + enc_str(it.size).len() + ",\"total_price\":"@.len() + enc_u32(it.total_price as nat).len() + ",\"nm_id\":"@.len() + enc_u32(it.nm_id as nat).len() + ",\"brand\":"@.len() + enc_str(it.brand).len() + ",\"status\":"@.len() + enc_u32(it.status as nat).len() + "}"@.len() == pos + enc_item(it).len(),
        pos + "{\"chrt_id\":"@.len() + enc_u32(it.chrt_id as nat).len() + ",\"track_number\":"@.len() + enc_str(it.track_number).len() + ",\"price\":"@.len() + enc_u32(it.price as nat).len() + ",\"rid\":"@.len() + enc_str(it.rid).len() + ",\"name\":"@.len() + enc_str(it.name).len() + ",\"sale\":"@.len() + enc_u32(it.sale as nat).len() + ",\"size\":"@.len() + enc_str(it.size).len() + ",\"total_price\":"@.len() + enc_u32(it.total_price as nat).len() + ",\"nm_id\":"@.len() + enc_u32(it.nm_id as nat).len() + ",\"brand\":"@.len() + enc_str(it.brand).len() + ",\"status\":"@.len() + enc_u32(it.status as nat).len() + "}"@.len() <= t.len(),
{
    reveal(enc_item);
    let c22 = "}"@;
    let c21 = enc_u32(it.status as nat) + c22;
    let c20 = ",\"status\":"@ + c21;
    let c19 = enc_str(it.brand) + c20;
    let c18 = ",\"brand\":"@ + c19;
    let c17 = enc_u32(it.nm_id as nat) + c18;
    let c16 = ",\"nm_id\":"@ + c17;
    let c15 = enc_u32(it.total_price as nat) + c16;
    let c14 = ",\"total_price\":"@ + c15;
    let c13 = enc_str(it.size) + c14;
    let c12 = ",\"size\":"@ + c13;
    let c11 = enc_u32(it.sale as nat) + c12;
    let c10 = ",\"sale\":"@ + c11;
    let c9 = enc_str(it.name) + c10;
    let c8 = ",\"name\":"@ + c9;
    let c7 = enc_str(it.rid) + c8;
    let c6 = ",\"rid\":"@ + c7;
    let c5 = enc_u32(it.price as nat) + c6;
    let c4 = ",\"price\":"@ + c5;
    let c3 = enc_str(it.track_number) + c4;
    let c2 = ",\"track_number\":"@ + c3;
    let c1 = enc_u32(it.chrt_id as nat) + c2;
    let c0 = "{\"chrt_id\":"@ + c1;
    assert(enc_item(it) == c0);
    lemma_add_assoc("{\"chrt_id\":"@, c1, rest);
    lemma_step(t, pos, "{\"chrt_id\":"@, c1 + rest);
    lemma_add_assoc(enc_u32(it.chrt_id as nat), c2, rest);
    reveal_strlit(",\"track_number\":");
    assert((c2)[0] == ",\"track_number\":"@[0]);
    assert((c2 + rest)[0] == ",\"track_number\":"@[0]);
    assert(!is_digit(",\"track_number\":"@[0]));
    lemma_parse_enc_u32(it.chrt_id, c2 + rest);
    lemma_step(t, pos + "{\"chrt_id\":"@.len(), enc_u32(it.chrt_id as nat), c2 + rest);
    lemma_add_assoc(",\"track_number\":"@, c3, rest);
    lemma_step(t, pos + "{\"chrt_id\":"@.len() + enc_u32(it.chrt_id as nat).len(), ",\"track_number\":"@, c3 + rest);
    lemma_add_assoc(enc_str(it.track_number), c4, rest);
    lemma_parse_enc_str(it.track_number, c4 + rest);
    lemma_step(t, pos + "{\"chrt_id\":"@.len() + enc_u32(it.chrt_id as nat).len() + ",\"track_number\":"@.len(), enc_str(it.track_number), c4 + rest);
    lemma_add_assoc(",\"price\":"@, c5, rest);
    lemma_step(t, pos + "{\"chrt_id\":"@.len() + enc_u32(it.chrt_id as nat).len() + ",\"track_number\":"@.len() + enc_str(it.track_number).len(), ",\"price\":"@, c5 + rest);
    lemma_add_assoc(enc_u32(it.price as nat), c6, rest);
    reveal_strlit(",\"rid\":");
    assert((c6)[0] == ",\"rid\":"@[0]);
    assert((c6 + rest)[0] == ",\"rid\":"@[0]);
    assert(!is_digit(",\"rid\":"@[0]));
    lemma_parse_enc_u32(it.price, c6 + rest);
    lemma_step(t, pos + "{\"chrt_id\":"@.len() + enc_u32(it.chrt_id as nat).len() + ",\"track_number\":"@.len() + enc_str(it.track_number).len() + ",\"price\":"@.len(), enc_u32(it.price as nat), c6 + rest);
    lemma_add_assoc(",\"rid\":"@, c7, rest);
    lemma_step(t, pos + "{\"chrt_id\":"@.len() + enc_u32(it.chrt_id as nat).len() + ",\"track_number\":"@.len() + enc_str(it.track_number).len() + ",\"price\":"@.len() + enc_u32(it.price as nat).len(), ",\"rid\":"@, c7 + rest);
    lemma_add_assoc(enc_str(it.rid), c8, rest);
    lemma_parse_enc_str(it.rid, c8 + rest);
    lemma_step(t, pos + "{\"chrt_id\":"@.len() + enc_u32(it.chrt_id as nat).len() + ",\"track_number\":"@.len() + enc_str(it.track_number).len() + ",\"price\":"@.len() + enc_u32(it.price as nat).len() + ",\"rid\":"@.len(), enc_str(it.rid), c8 + rest);
    lemma_add_assoc(",\"name\":"@, c9, rest);
    lemma_step(t, pos + "{\"chrt_id\":"@.len() + enc_u32(it.chrt_id as nat).len() + ",\"track_number\":"@.len() + enc_str(it.track_number).len() + ",\"price\":"@.len() + enc_u32(it.price as nat).len() + ",\"rid\":"@.len() + enc_str(it.rid).len(), ",\"name\":"@, c9 + rest);
    lemma_add_assoc(enc_str(it.name), c10, rest);
    lemma_parse_enc_str(it.name, c10 + rest);
    lemma_step(t, pos + "{\"chrt_id\":"@.len() + enc_u32(it.chrt_id as nat).len() + ",\"track_number\":"@.len() + enc_str(it.track_number).len() + ",\"price\":"@.len() + enc_u32(it.price as nat).len() + ",\"rid\":"@.len() + enc_str(it.rid).len() + ",\"name\":"@.len(), enc_str(it.name), c10 + rest);
    lemma_add_assoc(",\"sale\":"@, c11, rest);
    lemma_step(t, pos + "{\"chrt_id\":"@.len() + enc_u32(it.chrt_id as nat).len() + ",\"track_number\":"@.len() + enc_str(it.track_number).len() + ",\"price\":"@.len() + enc_u32(it.price as nat).len() + ",\"rid\":"@.len() + enc_str(it.rid).len() + ",\"name\":"@.len() + enc_str(it.name).len(), ",\"sale\":"@, c11 + rest);
    lemma_add_assoc(enc_u32(it.sale as nat), c12, rest);
    reveal_strlit(",\"size\":");
    assert((c12)[0] == ",\"size\":"@[0]);
    assert((c12 + rest)[0] == ",\"size\":"@[0]);
    assert(!is_digit(",\"size\":"@[0]));
    lemma_parse_enc_u32(it.sale, c12 + rest);
    lemma_step(t, pos + "{\"chrt_id\":"@.len() + enc_u32(it.chrt_id as nat).len() + ",\"track_number\":"@.len() + enc_str(it.track_number).len() + ",\"price\":"@.len() + enc_u32(it.price as nat).len() + ",\"rid\":"@.len() + enc_str(it.rid).len() + ",\"name\":"@.len() + enc_str(it.name).len() + ",\"sale\":"@.len(), enc_u32(it.sale as nat), c12 + rest);
    lemma_add_assoc(",\"size\":"@, c13, rest);
    lemma_step(t, pos + "{\"chrt_id\":"@.len() + enc_u32(it.chrt_id as nat).len() + ",\"track_number\":"@.len() + enc_str(it.track_number).len() + ",\"price\":"@.len() + enc_u32(it.price as nat).len() + ",\"rid\":"@.len() + enc_str(it.rid).len() + ",\"name\":"@.len() + enc_str(it.name).len() + ",\"sale\":"@.len() + enc_u32(it.sale as nat).len(), ",\"size\":"@, c13 + rest);
    lemma_add_assoc(enc_str(it.size), c14, rest);
    lemma_parse_enc_str(it.size, c14 + rest);
    lemma_step(t, pos + "{\"chrt_id\":"@.len() + enc_u32(it.chrt_id as nat).len() + ",\"track_number\":"@.len() + enc_str(it.track_number).len() + ",\"price\":"@.len() + enc_u32(it.price as nat).len() + ",\"rid\":"@.len() + enc_str(it.rid).len() + ",\"name\":"@.len() + enc_str(it.name).len() + ",\"sale\":"@.len() + enc_u32(it.sale as nat).len() + ",\"size\":"@.len(), enc_str(it.size), c14 + rest);
    lemma_add_assoc(",\"total_price\":"@, c15, rest);
    lemma_step(t, pos + "{\"chrt_id\":"@.len() + enc_u32(it.chrt_id as nat).len() + ",\"track_number\":"@.len() + enc_str(it.track_number).len() + ",\"price\":"@.len() + enc_u32(it.price as nat).len() + ",\"rid\":"@.len() + enc_str(it.rid).len() + ",\"name\":"@.len() + enc_str(it.name).len() + ",\"sale\":"@.len() + enc_u32(it.sale as nat).len() + ",\"size\":"@.len() + enc_str(it.size).len(), ",\"total_price\":"@, c15 + rest);
    lemma_add_assoc(enc_u32(it.total_price as nat), c16, rest);
    reveal_strlit(",\"nm_id\":");
    assert((c16)[0] == ",\"nm_id\":"@[0]);
    assert((c16 + rest)[0] == ",\"nm_id\":"@[0]);
    assert(!is_digit(",\"nm_id\":"@[0]));
    lemma_parse_enc_u32(it.total_price, c16 + rest);
    lemma_step(t, pos + "{\"chrt_id\":"@.len() + enc_u32(it.chrt_id as nat).len() + ",\"track_number\":"@.len() + enc_str(it.track_number).len() + ",\"price\":"@.len() + enc_u32(it.price as nat).len() + ",\"rid\":"@.len() + enc_str(it.rid).len() + ",\"name\":"@.len() + enc_str(it.name).len() + ",\"sale\":"@.len() + enc_u32(it.sale as nat).len() + ",\"size\":"@.len() + enc_str(it.size).len() + ",\"total_price\":"@.len(), enc_u32(it.total_price as nat), c16 + rest);
    lemma_add_assoc(",\"nm_id\":"@, c17, rest);
    lemma_step(t, pos + "{\"chrt_id\":"@.len() + enc_u32(it.chrt_id as nat).len() + ",\"track_number\":"@.len() + enc_str(it.track_number).len() + ",\"price\":"@.len() + enc_u32(it.price as nat).len() + ",\"rid\":"@.len() + enc_str(it.rid).len() + ",\"name\":"@.len() + enc_str(it.name).len() + ",\"sale\":"@.len() + enc_u32(it.sale as nat).len() + ",\"size\":"@.len() + enc_str(it.size).len() + ",\"total_price\":"@.len() + enc_u32(it.total_price as nat).len(), ",\"nm_id\":"@, c17 + rest);
    lemma_add_assoc(enc_u32(it.nm_id as nat), c18, rest);
    reveal_strlit(",\"brand\":");
    assert((c18)[0] == ",\"brand\":"@[0]);
    assert((c18 + rest)[0] == ",\"brand\":"@[0]);
    assert(!is_digit(",\"brand\":"@[0]));
    lemma_parse_enc_u32(it.nm_id, c18 + rest);
    lemma_step(t, pos + "{\"chrt_id\":"@.len() + enc_u32(it.chrt_id as nat).len() + ",\"track_number\":"@.len() + enc_str(it.track_number).len() + ",\"price\":"@.len() + enc_u32(it.price as nat).len() + ",\"rid\":"@.len() + enc_str(it.rid).len() + ",\"name\":"@.len() + enc_str(it.name).len() + ",\"sale\":"@.len() + enc_u32(it.sale as nat).len() + ",\"size\":"@.len() + enc_str(it.size).len() + ",\"total_price\":"@.len() + enc_u32(it.total_price as nat).len() + ",\"nm_id\":"@.len(), enc_u32(it.nm_id as nat), c18 + rest);
    lemma_add_assoc(",\"brand\":"@, c19, rest);
    lemma_step(t, pos + "{\"chrt_id\":"@.len() + enc_u32(it.chrt_id as nat).len() + ",\"track_number\":"@.len() + enc_str(it.track_number).len() + ",\"price\":"@.len() + enc_u32(it.price as nat).len() + ",\"rid\":"@.len() + enc_str(it.rid).len() + ",\"name\":"@.len() + enc_str(it.name).len() + ",\"sale\":"@.len() + enc_u32(it.sale as nat).len() + ",\"size\":"@.len() + enc_str(it.size).len() + ",\"total_price\":"@.len() + enc_u32(it.total_price as nat).len() + ",\"nm_id\":"@.len() + enc_u32(it.nm_id as nat).len(), ",\"brand\":"@, c19 + rest);
    lemma_add_assoc(enc_str(it.brand), c20, rest);
    lemma_parse_enc_str(it.brand, c20 + rest);
    lemma_step(t, pos + "{\"chrt_id\":"@.len() + enc_u32(it.chrt_id as nat).len() + ",\"track_number\":"@.len() + enc_str(it.track_number).len() + ",\"price\":"@.len() + enc_u32(it.price as nat).len() + ",\"rid\":"@.len() + enc_str(it.rid).len() + ",\"name\":"@.len() + enc_str(it.name).len() + ",\"sale\":"@.len() + enc_u32(it.sale as nat).len() + ",\"size\":"@.len() + enc_str(it.size).len() + ",\"total_price\":"@.len() + enc_u32(it.total_price as nat).len() + ",\"nm_id\":"@.len() + enc_u32(it.nm_id as nat).len() + ",\"brand\":"@.len(), enc_str(it.brand), c20 + rest);
    lemma_add_assoc(",\"status\":"@, c21, rest);
    lemma_step(t, pos + "{\"chrt_id\":"@.len() + enc_u32(it.chrt_id as nat).len() + ",\"track_number\":"@.len() + enc_str(it.track_number).len() + ",\"price\":"@.len() + enc_u32(it.price as nat).len() + ",\"rid\":"@.len() + enc_str(it.rid).len() + ",\"name\":"@.len() + enc_str(it.name).len() + ",\"sale\":"@.len() + enc_u32(it.sale as nat).len() + ",\"size\":"@.len() + enc_str(it.size).len() + ",\"total_price\":"@.len() + enc_u32(it.total_price as nat).len() + ",\"nm_id\":"@.len() + enc_u32(it.nm_id as nat).len() + ",\"brand\":"@.len() + enc_str(it.brand).len(), ",\"status\":"@, c21 + rest);
    lemma_add_assoc(enc_u32(it.status as nat), c22, rest);
    reveal_strlit("}");
    assert((c22)[0] == "}"@[0]);
    assert((c22 + rest)[0] == "}"@[0]);
    assert(!is_digit("}"@[0]));
    lemma_parse_enc_u32(it.status, c22 + rest);
    lemma_step(t, pos + "{\"chrt_id\":"@.len() + enc_u32(it.chrt_id as nat).len() + ",\"track_number\":"@.len() + enc_str(it.track_number).len() + ",\"price\":"@.len() + enc_u32(it.price as nat).len() + ",\"rid\":"@.len() + enc_str(it.rid).len() + ",\"name\":"@.len() + enc_str(it.name).len() + ",\"sale\":"@.len() + enc_u32(it.sale as nat).len() + ",\"size\":"@.len() + enc_str(it.size).len() + ",\"total_price\":"@.len() + enc_u32(it.total_price as nat).len() + ",\"nm_id\":"@.len() + enc_u32(it.nm_id as nat).len() + ",\"brand\":"@.len() + enc_str(it.brand).len() + ",\"status\":"@.len(), enc_u32(it.status as nat), c22 + rest);
    lemma_step(t, pos + "{\"chrt_id\":"@.len() + enc_u32(it.chrt_id as nat).len() + ",\"track_number\":"@.len() + enc_str(it.track_number).len() + ",\"price\":"@.len() + enc_u32(it.price as nat).len() + ",\"rid\":"@.len() + enc_str(it.rid).len() + ",\"name\":"@.len() + enc_str(it.name).len() + ",\"sale\":"@.len() + enc_u32(it.sale as nat).len() + ",\"size\":"@.len() + enc_str(it.size).len() + ",\"total_price\":"@.len() + enc_u32(it.total_price as nat).len() + ",\"nm_id\":"@.len() + enc_u32(it.nm_id as nat).len() + ",\"brand\":"@.len() + enc_str(it.brand).len() + ",\"status\":"@.len() + enc_u32(it.status as nat).len(), "}"@, rest);
}

/// Where each piece of the canonical form sits in the input.
#[verifier::rlimit(100)]
pub proof fn lemma_order_shape(t: Seq<char>, pos: int, o: OrderView, rest: Seq<char>)
    requires
        0 <= pos <= t.len(),
        t.skip(pos) == enc_order(o) + rest,
    ensures
        "{\"order_uid\":"@.is_prefix_of(t.skip(pos)),
        parse_str_at(t.skip(pos + "{\"order_uid\":"@.len())) == Some((o.order_uid, enc_str(o.order_uid).len() as int)),
        ",\"track_number\":"@.is_prefix_of(t.skip(pos + "{\"order_uid\":"@.len() + enc_str(o.order_uid).len())),
        parse_str_at(t.skip(pos + "{\"order_uid\":"@.len() + enc_str(o.order_uid).len() + ",\"track_number\":"@.len())) == Some((o.track_number, enc_str(o.track_number).len() as int)),
        ",\"entry\":"@.is_prefix_of(t.skip(pos + "{\"order_uid\":"@.len() + enc_str(o.order_uid).len() + ",\"track_number\":"@.len() + enc_str(o.track_number).len())),
        parse_str_at(t.skip(pos + "{\"order_uid\":"@.len() + enc_str(o.order_uid).len() + ",\"track_number\":"@.len() + enc_str(o.track_number).len() + ",\"entry\":"@.len())) == Some((o.entry, enc_str(o.entry).len() as int)),
        ",\"delivery\":"@.is_prefix_of(t.skip(pos + "{\"order_uid\":"@.len() + enc_str(o.order_uid).len() + ",\"track_number\":"@.len() + enc_str(o.track_number).len() + ",\"entry\":"@.len() + enc_str(o.entry).len())),
        t.skip(pos + "{\"order_uid\":"@.len() + enc_str(o.order_uid).len() + ",\"track_number\":"@.len() + enc_str(o.track_number).len() + ",\"entry\":"@.len() + enc_str(o.entry).len() + ",\"delivery\":"@.len()) == enc_delivery(o.delivery) + (",\"payment\":"@ + (enc_payment(o.payment) + (",\"items\":"@ + (enc_items(o.items) + (enc_order_tail(o) + (rest)))))),
        ",\"payment\":"@.is_prefix_of(t.skip(pos + "{\"order_uid\":"@.len() + enc_str(o.order_uid).len() + ",\"track_number\":"@.len() + enc_str(o.track_number).len() + ",\"entry\":"@.len() + enc_str(o.entry).len() + ",\"delivery\":"@.len() + enc_delivery(o.delivery).len())),
        t.skip(pos + "{\"order_uid\":"@.len() + enc_str(o.order_uid).len() + ",\"track_number\":"@.len() + enc_str(o.track_number).len() + ",\"entry\":"@.len() + enc_str(o.entry).len() + ",\"delivery\":"@.len() + enc_delivery(o.delivery).len() + ",\"payment\":"@.len()) == enc_payment(o.payment) + (",\"items\":"@ + (enc_items(o.items) + (enc_order_tail(o) + (rest)))),
        ",\"items\":"@.is_prefix_of(t.skip(pos + "{\"order_uid\":"@.len() + enc_str(o.order_uid).len() + ",\"track_number\":"@.len() + enc_str(o.track_number).len() + ",\"entry\":"@.len() + enc_str(o.entry).len() + ",\"delivery\":"@.len() + enc_delivery(o.delivery).len() + ",\"payment\":"@.len() + enc_payment(o.payment).len())),
        t.skip(pos + "{\"order_uid\":"@.len() + enc_str(o.order_uid).len() + ",\"track_number\":"@.len() + enc_str(o.track_number).len() + ",\"entry\":"@.len() + enc_str(o.entry).len() + ",\"delivery\":"@.len() + enc_delivery(o.delivery).len() + ",\"payment\":"@.len() + enc_payment(o.payment).len() + ",\"items\":"@.len()) == enc_items(o.items) + (enc_order_tail(o) + (rest)),
        t.skip(pos + "{\"order_uid\":"@.len() + enc_str(o.order_uid).len() + ",\"track_number\":"@.len() + enc_str(o.track_number).len() + ",\"entry\":"@.len() + enc_str(o.entry).len() + ",\"delivery\":"@.len() + enc_delivery(o.delivery).len() + ",\"payment\":"@.len() + enc_payment(o.payment).len() + ",\"items\":"@.len() + enc_items(o.items).len()) == enc_order_tail(o) + rest,
        pos + "{\"order_uid\":"@.len() + enc_str(o.order_uid).len() + ",\"track_number\":"@.len() + enc_str(o.track_number).len() + ",\"entry\":"@.len() + enc_str(o.entry).len() + ",\"delivery\":"@.len() + enc_delivery(o.delivery).len() + ",\"payment\":"@.len() + enc_payment(o.payment).len() + ",\"items\":"@.len() + enc_items(o.items).len() + enc_order_tail(o).len() == pos + enc_order(o).len(),
        pos + "{\"order_uid\":"@.len() + enc_str(o.order_uid).len() + ",\"track_number\":"@.len() + enc_str(o.track_number).len() + ",\"entry\":"@.len() + enc_str(o.entry).len() + ",\"delivery\":"@.len() + enc_delivery(o.delivery).len() + ",\"payment\":"@.len() + enc_payment(o.payment).len() + ",\"items\":"@.len() + enc_items(o.items).len() + enc_order_tail(o).len() <= t.len(),
{
    reveal(enc_order);
    let c12 = enc_order_tail(o);
    let c11 = enc_items(o.items) + c12;
    let c10 = ",\"items\":"@ + c11;
    let c9 = enc_payment(o.payment) + c10;
    let c8 = ",\"payment\":"@ + c9;
    let c7 = enc_delivery(o.delivery) + c8;
    let c6 = ",\"delivery\":"@ + c7;
    let c5 = enc_str(o.entry) + c6;
    let c4 = ",\"entry\":"@ + c5;
    let c3 = enc_str(o.track_number) + c4;
    let c2 = ",\"track_number\":"@ + c3;
    let c1 = enc_str(o.order_uid) + c2;
    let c0 = "{\"order_uid\":"@ + c1;
    assert(enc_order(o) == c0);
    lemma_add_assoc("{\"order_uid\":"@, c1, rest);
    lemma_step(t, pos, "{\"order_uid\":"@, c1 + rest);
    lemma_add_assoc(enc_str(o.order_uid), c2, rest);
    lemma_parse_enc_str(o.order_uid, c2 + rest);
    lemma_step(t, pos + "{\"order_uid\":"@.len(), enc_str(o.order_uid), c2 + rest);
    lemma_add_assoc(",\"track_number\":"@, c3, rest);
    lemma_step(t, pos + "{\"order_uid\":"@.len() + enc_str(o.order_uid).len(), ",\"track_number\":"@, c3 + rest);
    lemma_add_assoc(enc_str(o.track_number), c4, rest);
    lemma_parse_enc_str(o.track_number, c4 + rest);
    lemma_step(t, pos + "{\"order_uid\":"@.len() + enc_str(o.order_uid).len() + ",\"track_number\":"@.len(), enc_str(o.track_number), c4 + rest);
    lemma_add_assoc(",\"entry\":"@, c5, rest);
    lemma_step(t, pos + "{\"order_uid\":"@.len() + enc_str(o.order_uid).len() + ",\"track_number\":"@.len() + enc_str(o.track_number).len(), ",\"entry\":"@, c5 + rest);
    lemma_add_assoc(enc_str(o.entry), c6, rest);
    lemma_parse_enc_str(o.entry, c6 + rest);
    lemma_step(t, pos + "{\"order_uid\":"@.len() + enc_str(o.order_uid).len() + ",\"track_number\":"@.len() + enc_str(o.track_number).len() + ",\"entry\":"@.len(), enc_str(o.entry), c6 + rest);
    lemma_add_assoc(",\"delivery\":"@, c7, rest);
    lemma_step(t, pos + "{\"order_uid\":"@.len() + enc_str(o.order_uid).len() + ",\"track_number\":"@.len() + enc_str(o.track_number).len() + ",\"entry\":"@.len() + enc_str(o.entry).len(), ",\"delivery\":"@, c7 + rest);
    lemma_add_assoc(enc_delivery(o.delivery), c8, rest);
    lemma_step(t, pos + "{\"order_uid\":"@.len() + enc_str(o.order_uid).len() + ",\"track_number\":"@.len() + enc_str(o.track_number).len() + ",\"entry\":"@.len() + enc_str(o.entry).len() + ",\"delivery\":"@.len(), enc_delivery(o.delivery), c8 + rest);
    lemma_add_assoc(",\"payment\":"@, c9, rest);
    lemma_step(t, pos + "{\"order_uid\":"@.len() + enc_str(o.order_uid).len() + ",\"track_number\":"@.len() + enc_str(o.track_number).len() + ",\"entry\":"@.len() + enc_str(o.entry).len() + ",\"delivery\":"@.len() + enc_delivery(o.delivery).len(), ",\"payment\":"@, c9 + rest);
    lemma_add_assoc(enc_payment(o.payment), c10, rest);
    lemma_step(t, pos + "{\"order_uid\":"@.len() + enc_str(o.order_uid).len() + ",\"track_number\":"@.len() + enc_str(o.track_number).len() + ",\"entry\":"@.len() + enc_str(o.entry).len() + ",\"delivery\":"@.len() + enc_delivery(o.delivery).len() + ",\"payment\":"@.len(), enc_payment(o.payment), c10 + rest);
    lemma_add_assoc(",\"items\":"@, c11, rest);
    lemma_step(t, pos + "{\"order_uid\":"@.len() + enc_str(o.order_uid).len() + ",\"track_number\":"@.len() + enc_str(o.track_number).len() + ",\"entry\":"@.len() + enc_str(o.entry).len() + ",\"delivery\":"@.len() + enc_delivery(o.delivery).len() + ",\"payment\":"@.len() + enc_payment(o.payment).len(), ",\"items\":"@, c11 + rest);
    lemma_add_assoc(enc_items(o.items), c12, rest);
    lemma_step(t, pos + "{\"order_uid\":"@.len() + enc_str(o.order_uid).len() + ",\"track_number\":"@.len() + enc_str(o.track_number).len() + ",\"entry\":"@.len() + enc_str(o.entry).len() + ",\"delivery\":"@.len() + enc_delivery(o.delivery).len() + ",\"payment\":"@.len() + enc_payment(o.payment).len() + ",\"items\":"@.len(), enc_items(o.items), c12 + rest);
    lemma_step(t, pos + "{\"order_uid\":"@.len() + enc_str(o.order_uid).len() + ",\"track_number\":"@.len() + enc_str(o.track_number).len() + ",\"entry\":"@.len() + enc_str(o.entry).len() + ",\"delivery\":"@.len() + enc_delivery(o.delivery).len() + ",\"payment\":"@.len() + enc_payment(o.payment).len() + ",\"items\":"@.len() + enc_items(o.items).len(), enc_order_tail(o), rest);
}


/// Where each piece of the canonical form sits in the input.
#[verifier::rlimit(100)]
pub proof fn lemma_order_tail_shape(t: Seq<char>, pos: int, o: OrderView, rest: Seq<char>)
    requires
        0 <= pos <= t.len(),
        t.skip(pos) == enc_order_tail(o) + rest,
    ensures
        ",\"locale\":"@.is_prefix_of(t.skip(pos)),
        parse_str_at(t.skip(pos + ",\"locale\":"@.len())) == Some((o.locale, enc_str(o.locale).len() as int)),
        ",\"internal_signature\":"@.is_prefix_of(t.skip(pos + ",\"locale\":"@.len() + enc_str(o.locale).len())),
        parse_str_at(t.skip(pos + ",\"locale\":"@.len() + enc_str(o.locale).len() + ",\"internal_signature\":"@.len())) == Some((o.internal_signature, enc_str(o.internal_signature).len() as int)),
        ",\"customer_id\":"@.is_prefix_of(t.skip(pos + ",\"locale\":"@.len() + enc_str(o.locale).len() + ",\"internal_signature\":"@.len() + enc_str(o.internal_signature).len())),
        parse_str_at(t.skip(pos + ",\"locale\":"@.len() + enc_str(o.locale).len() + ",\"internal_signature\":"@.len() + enc_str(o.internal_signature).len() + ",\"customer_id\":"@.len())) == Some((o.customer_id, enc_str(o.customer_id).len() as int)),
        ",\"delivery_service\":"@.is_prefix_of(t.skip(pos + ",\"locale\":"@.len() + enc_str(o.locale).len() + ",\"internal_signature\":"@.len() + enc_str(o.internal_signature).len() + ",\"customer_id\":"@.len() + enc_str(o.customer_id).len())),
        parse_str_at(t.skip(pos + ",\"locale\":"@.len() + enc_str(o.locale).len() + ",\"internal_signature\":"@.len() + enc_str(o.internal_signature).len() + ",\"customer_id\":"@.len() + enc_str(o.customer_id).len() + ",\"delivery_service\":"@.len())) == Some((o.delivery_service, enc_str(o.delivery_service).len() as int)),
        ",\"shared_key\":"@.is_prefix_of(t.skip(pos + ",\"locale\":"@.len() + enc_str(o.locale).len() + ",\"internal_signature\":"@.len() + enc_str(o.internal_signature).len() + ",\"customer_id\":"@.len() + enc_str(o.customer_id).len() + ",\"delivery_service\":"@.len() + enc_str(o.delivery_service).len())),
        parse_str_at(t.skip(pos + ",\"locale\":"@.len() + enc_str(o.locale).len() + ",\"internal_signature\":"@.len() + enc_str(o.internal_signature).len() + ",\"customer_id\":"@.len() + enc_str(o.customer_id).len() + ",\"delivery_service\":"@.len() + enc_str(o.delivery_service).len() + ",\"shared_key\":"@.len())) == Some((o.shared_key, enc_str(o.shared_key).len() as int)),
        ",\"sm_id\":"@.is_prefix_of(t.skip(pos + ",\"locale\":"@.len() + enc_str(o.locale).len() + ",\"internal_signature\":"@.len() + enc_str(o.internal_signature).len() + ",\"customer_id\":"@.len() + enc_str(o.customer_id).len() + ",\"delivery_service\":"@.len() + enc_str(o.delivery_service).len() + ",\"shared_key\":"@.len() + enc_str(o.shared_key).len())),
        parse_num_at(t.skip(pos + ",\"locale\":"@.len() + enc_str(o.locale).len() + ",\"internal_signature\":"@.len() + enc_str(o.internal_signature).len() + ",\"customer_id\":"@.len() + enc_str(o.customer_id).len() + ",\"delivery_service\":"@.len() + enc_str(o.delivery_service).len() + ",\"shared_key\":"@.len() + enc_str(o.shared_key).len() + ",\"sm_id\":"@.len())) == Some((o.sm_id, enc_u32(o.sm_id as nat).len() as int)),
        ",\"date_created\":"@.is_prefix_of(t.skip(pos + ",\"locale\":"@.len() + enc_str(o.locale).len() + ",\"internal_signature\":"@.len() + enc_str(o.internal_signature).len() + ",\"customer_id\":"@.len() + enc_str(o.customer_id).len() + ",\"delivery_service\":"@.len() + enc_str(o.delivery_service).len() + ",\"shared_key\":"@.len() + enc_str(o.shared_key).len() + ",\"sm_id\":"@.len() + enc_u32(o.sm_id as nat).len())),
        parse_str_at(t.skip(pos + ",\"locale\":"@.len() + enc_str(o.locale).len() + ",\"internal_signature\":"@.len() + enc_str(o.internal_signature).len() + ",\"customer_id\":"@.len() + enc_str(o.customer_id).len() + ",\"delivery_service\":"@.len() + enc_str(o.delivery_service).len() + ",\"shared_key\":"@.len() + enc_str(o.shared_key).len() + ",\"sm_id\":"@.len() + enc_u32(o.sm_id as nat).len() + ",\"date_created\":"@.len())) == Some((o.date_created, enc_str(o.date_created).len() as int)),
        ",\"oof_shard\":"@.is_prefix_of(t.skip(pos + ",\"locale\":"@.len() + enc_str(o.locale).len() + ",\"internal_signature\":"@.len() + enc_str(o.internal_signature).len() + ",\"customer_id\":"@.len() + enc_str(o.customer_id).len() + ",\"delivery_service\":"@.len() + enc_str(o.delivery_service).len() + ",\"shared_key\":"@.len() + enc_str(o.shared_key).len() + ",\"sm_id\":"@.len() + enc_u32(o.sm_id as nat).len() + ",\"date_created\":"@.len() + enc_str(o.date_created).len())),
        parse_str_at(t.skip(pos + ",\"locale\":"@.len() + enc_str(o.locale).len() + ",\"internal_signature\":"@.len() + enc_str(o.internal_signature).len() + ",\"customer_id\":"@.len() + enc_str(o.customer_id).len() + ",\"delivery_service\":"@.len() + enc_str(o.delivery_service).len() + ",\"shared_key\":"@.len() + enc_str(o.shared_key).len() + ",\"sm_id\":"@.len() + enc_u32(o.sm_id as nat).len() + ",\"date_created\":"@.len() + enc_str(o.date_created).len() + ",\"oof_shard\":"@.len())) == Some((o.oof_shard, enc_str(o.oof_shard).len() as int)),
        "}"@.is_prefix_of(t.skip(pos + ",\"locale\":"@.len() + enc_str(o.locale).len() + ",\"internal_signature\":"@.len() + enc_str(o.internal_signature).len() + ",\"customer_id\":"@.len() + enc_str(o.customer_id).len() + ",\"delivery_service\":"@.len() + enc_str(o.delivery_service).len() + ",\"shared_key\":"@.len() + enc_str(o.shared_key).len() + ",\"sm_id\":"@.len() + enc_u32(o.sm_id as nat).len() + ",\"date_created\":"@.len() + enc_str(o.date_created).len() + ",\"oof_shard\":"@.len() + enc_str(o.oof_shard).len())),
        pos + ",\"locale\":"@.len() + enc_str(o.locale).len() + ",\"internal_signature\":"@.len() + enc_str(o.internal_signature).len() + ",\"customer_id\":"@.len() + enc_str(o.customer_id).len() + ",\"delivery_service\":"@.len() + enc_str(o.delivery_service).len() + ",\"shared_key\":"@.len() + enc_str(o.shared_key).len() + ",\"sm_id\":"@.len() + enc_u32(o.sm_id as nat).len() + ",\"date_created\":"@.len() + enc_str(o.date_created).len() + ",\"oof_shard\":"@.len() + enc_str(o.oof_shard).len() + "}"@.len() == pos + enc_order_tail(o).len(),
        pos + ",\"locale\":"@.len() + enc_str(o.locale).len() + ",\"internal_signature\":"@.len() + enc_str(o.internal_signature).len() + ",\"customer_id\":"@.len() + enc_str(o.customer_id).len() + ",\"delivery_service\":"@.len() + enc_str(o.delivery_service).len() + ",\"shared_key\":"@.len() + enc_str(o.shared_key).len() + ",\"sm_id\":"@.len() + enc_u32(o.sm_id as nat).len() + ",\"date_created\":"@.len() + enc_str(o.date_created).len() + ",\"oof_shard\":"@.len() + enc_str(o.oof_shard).len() + "}"@.len() <= t.len(),
{
    reveal(enc_order_tail);
    let c16 = "}"@;
    let c15 = enc_str(o.oof_shard) + c16;
    let c14 = ",\"oof_shard\":"@ + c15;
    let c13 = enc_str(o.date_created) + c14;
    let c12 = ",\"date_created\":"@ + c13;
    let c11 = enc_u32(o.sm_id as nat) + c12;
    let c10 = ",\"sm_id\":"@ + c11;
    let c9 = enc_str(o.shared_key) + c10;
    let c8 = ",\"shared_key\":"@ + c9;
    let c7 = enc_str(o.delivery_service) + c8;
    let c6 = ",\"delivery_service\":"@ + c7;
    let c5 = enc_str(o.customer_id) + c6;
    let c4 = ",\"customer_id\":"@ + c5;
    let c3 = enc_str(o.internal_signature) + c4;
    let c2 = ",\"internal_signature\":"@ + c3;
    let c1 = enc_str(o.locale) + c2;
    let c0 = ",\"locale\":"@ + c1;
    assert(enc_order_tail(o) == c0);
    lemma_add_assoc(",\"locale\":"@, c1, rest);
    lemma_step(t, pos, ",\"locale\":"@, c1 + rest);
    lemma_add_assoc(enc_str(o.locale), c2, rest);
    lemma_parse_enc_str(o.locale, c2 + rest);
    lemma_step(t, pos + ",\"locale\":"@.len(), enc_str(o.locale), c2 + rest);
    lemma_add_assoc(",\"internal_signature\":"@, c3, rest);
    lemma_step(t, pos + ",\"locale\":"@.len() + enc_str(o.locale).len(), ",\"internal_signature\":"@, c3 + rest);
    lemma_add_assoc(enc_str(o.internal_signature), c4, rest);
    lemma_parse_enc_str(o.internal_signature, c4 + rest);
    lemma_step(t, pos + ",\"locale\":"@.len() + enc_str(o.locale).len() + ",\"internal_signature\":"@.len(), enc_str(o.internal_signature), c4 + rest);
    lemma_add_assoc(",\"customer_id\":"@, c5, rest);
    lemma_step(t, pos + ",\"locale\":"@.len() + enc_str(o.locale).len() + ",\"internal_signature\":"@.len() + enc_str(o.internal_signature).len(), ",\"customer_id\":"@, c5 + rest);
    lemma_add_assoc(enc_str(o.customer_id), c6, rest);
    lemma_parse_enc_str(o.customer_id, c6 + rest);
    lemma_step(t, pos + ",\"locale\":"@.len() + enc_str(o.locale).len() + ",\"internal_signature\":"@.len() + enc_str(o.internal_signature).len() + ",\"customer_id\":"@.len(), enc_str(o.customer_id), c6 + rest);
    lemma_add_assoc(",\"delivery_service\":"@, c7, rest);
    lemma_step(t, pos + ",\"locale\":"@.len() + enc_str(o.locale).len() + ",\"internal_signature\":"@.len() + enc_str(o.internal_signature).len() + ",\"customer_id\":"@.len() + enc_str(o.customer_id).len(), ",\"delivery_service\":"@, c7 + rest);
    lemma_add_assoc(enc_str(o.delivery_service), c8, rest);
    lemma_parse_enc_str(o.delivery_service, c8 + rest);
    lemma_step(t, pos + ",\"locale\":"@.len() + enc_str(o.locale).len() + ",\"internal_signature\":"@.len() + enc_str(o.internal_signature).len() + ",\"customer_id\":"@.len() + enc_str(o.customer_id).len() + ",\"delivery_service\":"@.len(), enc_str(o.delivery_service), c8 + rest);
    lemma_add_assoc(",\"shared_key\":"@, c9, rest);
    lemma_step(t, pos + ",\"locale\":"@.len() + enc_str(o.locale).len() + ",\"internal_signature\":"@.len() + enc_str(o.internal_signature).len() + ",\"customer_id\":"@.len() + enc_str(o.customer_id).len() + ",\"delivery_service\":"@.len() + enc_str(o.delivery_service).len(), ",\"shared_key\":"@, c9 + rest);
    lemma_add_assoc(enc_str(o.shared_key), c10, rest);
    lemma_parse_enc_str(o.shared_key, c10 + rest);
    lemma_step(t, pos + ",\"locale\":"@.len() + enc_str(o.locale).len() + ",\"internal_signature\":"@.len() + enc_str(o.internal_signature).len() + ",\"customer_id\":"@.len() + enc_str(o.customer_id).len() + ",\"delivery_service\":"@.len() + enc_str(o.delivery_service).len() + ",\"shared_key\":"@.len(), enc_str(o.shared_key), c10 + rest);
    lemma_add_assoc(",\"sm_id\":"@, c11, rest);
    lemma_step(t, pos + ",\"locale\":"@.len() + enc_str(o.locale).len() + ",\"internal_signature\":"@.len() + enc_str(o.internal_signature).len() + ",\"customer_id\":"@.len() + enc_str(o.customer_id).len() + ",\"delivery_service\":"@.len() + enc_str(o.delivery_service).len() + ",\"shared_key\":"@.len() + enc_str(o.shared_key).len(), ",\"sm_id\":"@, c11 + rest);
    lemma_add_assoc(enc_u32(o.sm_id as nat), c12, rest);
    reveal_strlit(",\"date_created\":");
    assert((c12)[0] == ",\"date_created\":"@[0]);
    assert((c12 + rest)[0] == ",\"date_created\":"@[0]);
    assert(!is_digit(",\"date_created\":"@[0]));
    lemma_parse_enc_u32(o.sm_id, c12 + rest);
    lemma_step(t, pos + ",\"locale\":"@.len() + enc_str(o.locale).len() + ",\"internal_signature\":"@.len() + enc_str(o.internal_signature).len() + ",\"customer_id\":"@.len() + enc_str(o.customer_id).len() + ",\"delivery_service\":"@.len() + enc_str(o.delivery_service).len() + ",\"shared_key\":"@.len() + enc_str(o.shared_key).len() + ",\"sm_id\":"@.len(), enc_u32(o.sm_id as nat), c12 + rest);
    lemma_add_assoc(",\"date_created\":"@, c13, rest);
    lemma_step(t, pos + ",\"locale\":"@.len() + enc_str(o.locale).len() + ",\"internal_signature\":"@.len() + enc_str(o.internal_signature).len() + ",\"customer_id\":"@.len() + enc_str(o.customer_id).len() + ",\"delivery_service\":"@.len() + enc_str(o.delivery_service).len() + ",\"shared_key\":"@.len() + enc_str(o.shared_key).len() + ",\"sm_id\":"@.len() + enc_u32(o.sm_id as nat).len(), ",\"date_created\":"@, c13 + rest);
    lemma_add_assoc(enc_str(o.date_created), c14, rest);
    lemma_parse_enc_str(o.date_created, c14 + rest);
    lemma_step(t, pos + ",\"locale\":"@.len() + enc_str(o.locale).len() + ",\"internal_signature\":"@.len() + enc_str(o.internal_signature).len() + ",\"customer_id\":"@.len() + enc_str(o.customer_id).len() + ",\"delivery_service\":"@.len() + enc_str(o.delivery_service).len() + ",\"shared_key\":"@.len() + enc_str(o.shared_key).len() + ",\"sm_id\":"@.len() + enc_u32(o.sm_id as nat).len() + ",\"date_created\":"@.len(), enc_str(o.date_created), c14 + rest);
    lemma_add_assoc(",\"oof_shard\":"@, c15, rest);
    lemma_step(t, pos + ",\"locale\":"@.len() + enc_str(o.locale).len() + ",\"internal_signature\":"@.len() + enc_str(o.internal_signature).len() + ",\"customer_id\":"@.len() + enc_str(o.customer_id).len() + ",\"delivery_service\":"@.len() + enc_str(o.delivery_service).len() + ",\"shared_key\":"@.len() + enc_str(o.shared_key).len() + ",\"sm_id\":"@.len() + enc_u32(o.sm_id as nat).len() + ",\"date_created\":"@.len() + enc_str(o.date_created).len(), ",\"oof_shard\":"@, c15 + rest);
    lemma_add_assoc(enc_str(o.oof_shard), c16, rest);
    lemma_parse_enc_str(o.oof_shard, c16 + rest);
    lemma_step(t, pos + ",\"locale\":"@.len() + enc_str(o.locale).len() + ",\"internal_signature\":"@.len() + enc_str(o.internal_signature).len() + ",\"customer_id\":"@.len() + enc_str(o.customer_id).len() + ",\"delivery_service\":"@.len() + enc_str(o.delivery_service).len() + ",\"shared_key\":"@.len() + enc_str(o.shared_key).len() + ",\"sm_id\":"@.len() + enc_u32(o.sm_id as nat).len() + ",\"date_created\":"@.len() + enc_str(o.date_created).len() + ",\"oof_shard\":"@.len(), enc_str(o.oof_shard), c16 + rest);
    lemma_step(t, pos + ",\"locale\":"@.len() + enc_str(o.locale).len() + ",\"internal_signature\":"@.len() + enc_str(o.internal_signature).len() + ",\"customer_id\":"@.len() + enc_str(o.customer_id).len() + ",\"delivery_service\":"@.len() + enc_str(o.delivery_service).len() + ",\"shared_key\":"@.len() + enc_str(o.shared_key).len() + ",\"sm_id\":"@.len() + enc_u32(o.sm_id as nat).len() + ",\"date_created\":"@.len() + enc_str(o.date_created).len() + ",\"oof_shard\":"@.len() + enc_str(o.oof_shard).len(), "}"@, rest);
}






/// Reads a canonical object at this position.
#[verifier::rlimit(100)]
fn parse_delivery(v: &Vec<char>, pos: usize) -> (r: Option<(Delivery, usize)>)
    requires
        pos <= v@.len(),
    ensures
        (match r {
            Some(p) => pos < p.1 <= v@.len(),
            None => true,
        }),
        forall|d: DeliveryView, rest: Seq<char>| #![trigger enc_delivery(d) + rest]
            v@.skip(pos as int) == enc_delivery(d) + rest ==> r is Some && (r->0).0@ == d
                && (r->0).1 == pos + enc_delivery(d).len(),
{
    let mut ok = true;
    let mut j: usize = pos;
    let mut f_name: String = String::new();
    let mut f_phone: String = String::new();
    let mut f_zip: String = String::new();
    let mut f_city: String = String::new();
    let mut f_address: String = String::new();
    let mut f_region: String = String::new();
    let mut f_email: String = String::new();
    if ok {
        match expect_lit(v, j, "{\"name\":") {
            Some(x) => {
                j = x;
            },
            None => {
                ok = false;
            },
        }
    }
    if ok {
        match parse_string(v, j) {
            Some(p2) => {
                f_name = p2.0;
                j = p2.1;
            },
            None => {
                ok = false;
            },
        }
    }
    if ok {
        match expect_lit(v, j, ",\"phone\":") {
            Some(x) => {
                j = x;
            },
            None => {
                ok = false;
            },
        }
    }
    if ok {
        match parse_string(v, j) {
            Some(p2) => {
                f_phone = p2.0;
                j = p2.1;
            },
            None => {
                ok = false;
            },
        }
    }
    if ok {
        match expect_lit(v, j, ",\"zip\":") {
            Some(x) => {
                j = x;
            },
            None => {
                ok = false;
            },
        }
    }
    if ok {
        match parse_string(v, j) {
            Some(p2) => {
                f_zip = p2.0;
                j = p2.1;
            },
            None => {
                ok = false;
            },
        }
    }
    if ok {
        match expect_lit(v, j, ",\"city\":") {
            Some(x) => {
                j = x;
            },
            None => {
                ok = false;
            },
        }
    }
    if ok {
        match parse_string(v, j) {
            Some(p2) => {
                f_city = p2.0;
                j = p2.1;
            },
            None => {
                ok = false;
            },
        }
    }
    if ok {
        match expect_lit(v, j, ",\"address\":") {
            Some(x) => {
                j = x;
            },
            None => {
                ok = false;
            },
        }
    }
    if ok {
        match parse_string(v, j) {
            Some(p2) => {
                f_address = p2.0;
                j = p2.1;
            },
            None => {
                ok = false;
            },
        }
    }
    if ok {
        match expect_lit(v, j, ",\"region\":") {
            Some(x) => {
                j = x;
            },
            None => {
                ok = false;
            },
        }
    }
    if ok {
        match parse_string(v, j) {
            Some(p2) => {
                f_region = p2.0;
                j = p2.1;
            },
            None => {
                ok = false;
            },
        }
    }
    if ok {
        match expect_lit(v, j, ",\"email\":") {
            Some(x) => {
                j = x;
            },
            None => {
                ok = false;
            },
        }
    }
    if ok {
        match parse_string(v, j) {
            Some(p2) => {
                f_email = p2.0;
                j = p2.1;
            },
            None => {
                ok = false;
            },
        }
    }
    if ok {
        match expect_lit(v, j, "}") {
            Some(x) => {
                j = x;
            },
            None => {
                ok = false;
            },
        }
    }
    let built = Delivery {
        name: f_name,
        phone: f_phone,
        zip: f_zip,
        city: f_city,
        address: f_address,
        region: f_region,
        email: f_email,
    };
    proof {
        assert forall|d: DeliveryView, rest: Seq<char>| #![trigger enc_delivery(d) + rest]
            v@.skip(pos as int) == enc_delivery(d) + rest implies ok && built@ == d && j == pos
            + enc_delivery(d).len() by {
            lemma_delivery_shape(v@, pos as int, d, rest);
            assert(built@ =~= d);
        }
    }
    if !ok {
        return None;
    }
    Some((built, j))
}

/// Reads a canonical object at this position.
#[verifier::rlimit(100)]
fn parse_payment(v: &Vec<char>, pos: usize) -> (r: Option<(Payment, usize)>)
    requires
        pos <= v@.len(),
    ensures
        (match r {
            Some(p) => pos < p.1 <= v@.len(),
            None => true,
        }),
        forall|p: PaymentView, rest: Seq<char>| #![trigger enc_payment(p) + rest]
            v@.skip(pos as int) == enc_payment(p) + rest ==> r is Some && (r->0).0@ == p
                && (r->0).1 == pos + enc_payment(p).len(),
{
    let mut ok = true;
    let mut j: usize = pos;
    let mut f_transaction: String = String::new();
    let mut f_request_id: String = String::new();
    let mut f_currency: String = String::new();
    let mut f_provider: String = String::new();
    let mut f_amount: u32 = 0;
    let mut f_payment_dt: u32 = 0;
    let mut f_bank: String = String::new();
    let mut f_delivery_cost: u32 = 0;
    let mut f_goods_total: u32 = 0;
    let mut f_custom_fee: u32 = 0;
    if ok {
        match expect_lit(v, j, "{\"transaction\":") {
            Some(x) => {
                j = x;
            },
            None => {
                ok = false;
            },
        }
    }
    if ok {
        match parse_string(v, j) {
            Some(p2) => {
                f_transaction = p2.0;
                j = p2.1;
            },
            None => {
                ok = false;
            },
        }
    }
    if ok {
        match expect_lit(v, j, ",\"request_id\":") {
            Some(x) => {
                j = x;
            },
            None => {
                ok = false;
            },
        }
    }
    if ok {
        match parse_string(v, j) {
            Some(p2) => {
                f_request_id = p2.0;
                j = p2.1;
            },
            None => {
                ok = false;
            },
        }
    }
    if ok {
        match expect_lit(v, j, ",\"currency\":") {
            Some(x) => {
                j = x;
            },
            None => {
                ok = false;
            },
        }
    }
    if ok {
        match parse_string(v, j) {
            Some(p2) => {
                f_currency = p2.0;
                j = p2.1;
            },
            None => {
                ok = false;
            },
        }
    }
    if ok {
        match expect_lit(v, j, ",\"provider\":") {
            Some(x) => {
                j = x;
            },
            None => {
                ok = false;
            },
        }
    }
    if ok {
        match parse_string(v, j) {
            Some(p2) => {
                f_provider = p2.0;
                j = p2.1;
            },
            None => {
                ok = false;
            },
        }
    }
    if ok {
        match expect_lit(v, j, ",\"amount\":") {
            Some(x) => {
                j = x;
            },
            None => {
                ok = false;
            },
        }
    }
    if ok {
        match parse_u32(v, j) {
            Some(p2) => {
                f_amount = p2.0;
                j = p2.1;
            },
            None => {
                ok = false;
            },
        }
    }
    if ok {
        match expect_lit(v, j, ",\"payment_dt\":") {
            Some(x) => {
                j = x;
            },
            None => {
                ok = false;
            },
        }
    }
    if ok {
        match parse_u32(v, j) {
            Some(p2) => {
                f_payment_dt = p2.0;
                j = p2.1;
            },
            None => {
                ok = false;
            },
        }
    }
    if ok {
        match expect_lit(v, j, ",\"bank\":") {
            Some(x) => {
                j = x;
            },
            None => {
                ok = false;
            },
        }
    }
    if ok {
        match parse_string(v, j) {
            Some(p2) => {
                f_bank = p2.0;
                j = p2.1;
            },
            None => {
                ok = false;
            },
        }
    }
    if ok {
        match expect_lit(v, j, ",\"delivery_cost\":") {
            Some(x) => {
                j = x;
            },
            None => {
                ok = false;
            },
        }
    }
    if ok {
        match parse_u32(v, j) {
            Some(p2) => {
                f_delivery_cost = p2.0;
                j = p2.1;
            },
            None => {
                ok = false;
            },
        }
    }
    if ok {
        match expect_lit(v, j, ",\"goods_total\":") {
            Some(x) => {
                j = x;
            },
            None => {
                ok = false;
            },
        }
    }
    if ok {
        match parse_u32(v, j) {
            Some(p2) => {
                f_goods_total = p2.0;
                j = p2.1;
            },
            None => {
                ok = false;
            },
        }
    }
    if ok {
        match expect_lit(v, j, ",\"custom_fee\":") {
            Some(x) => {
                j = x;
            },
            None => {
                ok = false;
            },
        }
    }
    if ok {
        match parse_u32(v, j) {
            Some(p2) => {
                f_custom_fee = p2.0;
                j = p2.1;
            },
            None => {
                ok = false;
            },
        }
    }
    if ok {
        match expect_lit(v, j, "}") {
            Some(x) => {
                j = x;
            },
            None => {
                ok = false;
            },
        }
    }
    let built = Payment {
        transaction: f_transaction,
        request_id: f_request_id,
        currency: f_currency,
        provider: f_provider,
        amount: f_amount,
        payment_dt: f_payment_dt,
        bank: f_bank,
        delivery_cost: f_delivery_cost,
        goods_total: f_goods_total,
        custom_fee: f_custom_fee,
    };
    proof {
        assert forall|p: PaymentView, rest: Seq<char>| #![trigger enc_payment(p) + rest]
            v@.skip(pos as int) == enc_payment(p) + rest implies ok && built@ == p && j == pos
            + enc_payment(p).len() by {
            lemma_payment_shape(v@, pos as int, p, rest);
            assert(built@ =~= p);
        }
    }
    if !ok {
        return None;
    }
    Some((built, j))
}

/// Reads a canonical object at this position.
#[verifier::rlimit(100)]
fn parse_item(v: &Vec<char>, pos: usize) -> (r: Option<(Item, usize)>)
    requires
        pos <= v@.len(),
    ensures
        (match r {
            Some(p) => pos < p.1 <= v@.len(),
            None => true,
        }),
        forall|it: ItemView, rest: Seq<char>| #![trigger enc_item(it) + rest]
            v@.skip(pos as int) == enc_item(it) + rest ==> r is Some && (r->0).0@ == it
                && (r->0).1 == pos + enc_item(it).len(),
{
    let mut ok = true;
    let mut j: usize = pos;
    let mut f_chrt_id: u32 = 0;
    let mut f_track_number: String = String::new();
    let mut f_price: u32 = 0;
    let mut f_rid: String = String::new();
    let mut f_name: String = String::new();
    let mut f_sale: u32 = 0;
    let mut f_size: String = String::new();
    let mut f_total_price: u32 = 0;
    let mut f_nm_id: u32 = 0;
    let mut f_brand: String = String::new();
    let mut f_status: u32 = 0;
    if ok {
        match expect_lit(v, j, "{\"chrt_id\":") {
            Some(x) => {
                j = x;
            },
            None => {
                ok = false;
            },
        }
    }
    if ok {
        match parse_u32(v, j) {
            Some(p2) => {
                f_chrt_id = p2.0;
                j = p2.1;
            },
            None => {
                ok = false;
            },
        }
    }
    if ok {
        match expect_lit(v, j, ",\"track_number\":") {
            Some(x) => {
                j = x;
            },
            None => {
                ok = false;
            },
        }
    }
    if ok {
        match parse_string(v, j) {
            Some(p2) => {
                f_track_number = p2.0;
                j = p2.1;
            },
            None => {
                ok = false;
            },
        }
    }
    if ok {
        match expect_lit(v, j, ",\"price\":") {
            Some(x) => {
                j = x;
            },
            None => {
                ok = false;
            },
        }
    }
    if ok {
        match parse_u32(v, j) {
            Some(p2) => {
                f_price = p2.0;
                j = p2.1;
            },
            None => {
                ok = false;
            },
        }
    }
    if ok {
        match expect_lit(v, j, ",\"rid\":") {
            Some(x) => {
                j = x;
            },
            None => {
                ok = false;
            },
        }
    }
    if ok {
        match parse_string(v, j) {
            Some(p2) => {
                f_rid = p2.0;
                j = p2.1;
            },
            None => {
                ok = false;
            },
        }
    }
    if ok {
        match expect_lit(v, j, ",\"name\":") {
            Some(x) => {
                j = x;
            },
            None => {
                ok = false;
            },
        }
    }
    if ok {
        match parse_string(v, j) {
            Some(p2) => {
                f_name = p2.0;
                j = p2.1;
            },
            None => {
                ok = false;
            },
        }
    }
    if ok {
        match expect_lit(v, j, ",\"sale\":") {
            Some(x) => {
                j = x;
            },
            None => {
                ok = false;
            },
        }
    }
    if ok {
        match parse_u32(v, j) {
            Some(p2) => {
                f_sale = p2.0;
                j = p2.1;
            },
            None => {
                ok = false;
            },
        }
    }
    if ok {
        match expect_lit(v, j, ",\"size\":") {
            Some(x) => {
                j = x;
            },
            None => {
                ok = false;
            },
        }
    }
    if ok {
        match parse_string(v, j) {
            Some(p2) => {
                f_size = p2.0;
                j = p2.1;
            },
            None => {
                ok = false;
            },
        }
    }
    if ok {
        match expect_lit(v, j, ",\"total_price\":") {
            Some(x) => {
                j = x;
            },
            None => {
                ok = false;
            },
        }
    }
    if ok {
        match parse_u32(v, j) {
            Some(p2) => {
                f_total_price = p2.0;
                j = p2.1;
            },
            None => {
                ok = false;
            },
        }
    }
    if ok {
        match expect_lit(v, j, ",\"nm_id\":") {
            Some(x) => {
                j = x;
            },
            None => {
                ok = false;
            },
        }
    }
    if ok {
        match parse_u32(v, j) {
            Some(p2) => {
                f_nm_id = p2.0;
                j = p2.1;
            },
            None => {
                ok = false;
            },
        }
    }
    if ok {
        match expect_lit(v, j, ",\"brand\":") {
            Some(x) => {
                j = x;
            },
            None => {
                ok = false;
            },
        }
    }
    if ok {
        match parse_string(v, j) {
            Some(p2) => {
                f_brand = p2.0;
                j = p2.1;
            },
            None => {
                ok = false;
            },
        }
    }
    if ok {
        match expect_lit(v, j, ",\"status\":") {
            Some(x) => {
                j = x;
            },
            None => {
                ok = false;
            },
        }
    }
    if ok {
        match parse_u32(v, j) {
            Some(p2) => {
                f_status = p2.0;
                j = p2.1;
            },
            None => {
                ok = false;
            },
        }
    }
    if ok {
        match expect_lit(v, j, "}") {
            Some(x) => {
                j = x;
            },
            None => {
                ok = false;
            },
        }
    }
    let built = Item {
        chrt_id: f_chrt_id,
        track_number: f_track_number,
        price: f_price,
        rid: f_rid,
        name: f_name,
        sale: f_sale,
        size: f_size,
        total_price: f_total_price,
        nm_id: f_nm_id,
        brand: f_brand,
        status: f_status,
    };
    proof {
        assert forall|it: ItemView, rest: Seq<char>| #![trigger enc_item(it) + rest]
            v@.skip(pos as int) == enc_item(it) + rest implies ok && built@ == it && j == pos
            + enc_item(it).len() by {
            lemma_item_shape(v@, pos as int, it, rest);
            assert(built@ =~= it);
        }
    }
    if !ok {
        return None;
    }
    Some((built, j))
}

/// Reads the tail half of a canonical order object into the given
/// document, leaving its other fields untouched.
#[verifier::rlimit(100)]
fn parse_order_tail(v: &Vec<char>, pos: usize, out: &mut Order) -> (r: Option<usize>)
    requires
        pos <= v@.len(),
    ensures
        (match r {
            Some(j) => pos < j <= v@.len(),
            None => true,
        }),
        final(out).order_uid == old(out).order_uid,
        final(out).track_number == old(out).track_number,
        final(out).entry == old(out).entry,
        final(out)@.delivery == old(out)@.delivery,
        final(out)@.payment == old(out)@.payment,
        final(out)@.items == old(out)@.items,
        forall|o: OrderView, rest: Seq<char>| #![trigger enc_order_tail(o) + rest]
            v@.skip(pos as int) == enc_order_tail(o) + rest ==> r is Some
                && final(out)@.locale == o.locale
                && final(out)@.internal_signature == o.internal_signature
                && final(out)@.customer_id == o.customer_id
                && final(out)@.delivery_service == o.delivery_service
                && final(out)@.shared_key == o.shared_key
                && final(out)@.sm_id == o.sm_id
                && final(out)@.date_created == o.date_created
                && final(out)@.oof_shard == o.oof_shard
                && r->0 == pos + enc_order_tail(o).len(),
{
    let mut ok = true;
    let mut j: usize = pos;
    let mut f_locale: String = String::new();
    let mut f_internal_signature: String = String::new();
    let mut f_customer_id: String = String::new();
    let mut f_delivery_service: String = String::new();
    let mut f_shared_key: String = String::new();
    let mut f_sm_id: u32 = 0;
    let mut f_date_created: String = String::new();
    let mut f_oof_shard: String = String::new();
    if ok {
        match expect_lit(v, j, ",\"locale\":") {
            Some(x) => {
                j = x;
            },
            None => {
                ok = false;
            },
        }
    }
    if ok {
        match parse_string(v, j) {
            Some(p2) => {
                f_locale = p2.0;
                j = p2.1;
            },
            None => {
                ok = false;
            },
        }
    }
    if ok {
        match expect_lit(v, j, ",\"internal_signature\":") {
            Some(x) => {
                j = x;
            },
            None => {
                ok = false;
            },
        }
    }
    if ok {
        match parse_string(v, j) {
            Some(p2) => {
                f_internal_signature = p2.0;
                j = p2.1;
            },
            None => {
                ok = false;
            },
        }
    }
    if ok {
        match expect_lit(v, j, ",\"customer_id\":") {
            Some(x) => {
                j = x;
            },
            None => {
                ok = false;
            },
        }
    }
    if ok {
        match parse_string(v, j) {
            Some(p2) => {
                f_customer_id = p2.0;
                j = p2.1;
            },
            None => {
                ok = false;
            },
        }
    }
    if ok {
        match expect_lit(v, j, ",\"delivery_service\":") {
            Some(x) => {
                j = x;
            },
            None => {
                ok = false;
            },
        }
    }
    if ok {
        match parse_string(v, j) {
            Some(p2) => {
                f_delivery_service = p2.0;
                j = p2.1;
            },
            None => {
                ok = false;
            },
        }
    }
    if ok {
        match expect_lit(v, j, ",\"shared_key\":") {
            Some(x) => {
                j = x;
            },
            None => {
                ok = false;
            },
        }
    }
    if ok {
        match parse_string(v, j) {
            Some(p2) => {
                f_shared_key = p2.0;
                j = p2.1;
            },
            None => {
                ok = false;
            },
        }
    }
    if ok {
        match expect_lit(v, j, ",\"sm_id\":") {
            Some(x) => {
                j = x;
            },
            None => {
                ok = false;
            },
        }
    }
    if ok {
        match parse_u32(v, j) {
            Some(p2) => {
                f_sm_id = p2.0;
                j = p2.1;
            },
            None => {
                ok = false;
            },
        }
    }
    if ok {
        match expect_lit(v, j, ",\"date_created\":") {
            Some(x) => {
                j = x;
            },
            None => {
                ok = false;
            },
        }
    }
    if ok {
        match parse_string(v, j) {
            Some(p2) => {
                f_date_created = p2.0;
                j = p2.1;
            },
            None => {
                ok = false;
            },
        }
    }
    if ok {
        match expect_lit(v, j, ",\"oof_shard\":") {
            Some(x) => {
                j = x;
            },
            None => {
                ok = false;
            },
        }
    }
    if ok {
        match parse_string(v, j) {
            Some(p2) => {
                f_oof_shard = p2.0;
                j = p2.1;
            },
            None => {
                ok = false;
            },
        }
    }
    if ok {
        match expect_lit(v, j, "}") {
            Some(x) => {
                j = x;
            },
            None => {
                ok = false;
            },
        }
    }
    out.locale = f_locale;
    out.internal_signature = f_internal_signature;
    out.customer_id = f_customer_id;
    out.delivery_service = f_delivery_service;
    out.shared_key = f_shared_key;
    out.sm_id = f_sm_id;
    out.date_created = f_date_created;
    out.oof_shard = f_oof_shard;
    proof {
        assert forall|o: OrderView, rest: Seq<char>| #![trigger enc_order_tail(o) + rest]
            v@.skip(pos as int) == enc_order_tail(o) + rest implies ok && out@.locale == o.locale
            && out@.internal_signature == o.internal_signature && out@.customer_id
            == o.customer_id && out@.delivery_service == o.delivery_service && out@.shared_key
            == o.shared_key && out@.sm_id == o.sm_id && out@.date_created == o.date_created
            && out@.oof_shard == o.oof_shard && j == pos + enc_order_tail(o).len() by {
            lemma_order_tail_shape(v@, pos as int, o, rest);
        }
    }
    if !ok {
        return None;
    }
    Some(j)
}

/// Reads a canonical order object at this position.
#[verifier::rlimit(100)]
fn parse_order(v: &Vec<char>, pos: usize) -> (r: Option<(Order, usize)>)
    requires
        pos <= v@.len(),
    ensures
        (match r {
            Some(p) => pos < p.1 <= v@.len(),
            None => true,
        }),
        forall|o: OrderView, rest: Seq<char>| #![trigger enc_order(o) + rest]
            v@.skip(pos as int) == enc_order(o) + rest ==> r is Some && (r->0).0@ == o
                && (r->0).1 == pos + enc_order(o).len(),
{
    let mut ok = true;
    let mut j: usize = pos;
    let mut f_order_uid: String = String::new();
    let mut f_track_number: String = String::new();
    let mut f_entry: String = String::new();
    let mut f_delivery: Delivery = Delivery {
        name: String::new(),
        phone: String::new(),
        zip: String::new(),
        city: String::new(),
        address: String::new(),
        region: String::new(),
        email: String::new(),
    };
    let mut f_payment: Payment = Payment {
        transaction: String::new(),
        request_id: String::new(),
        currency: String::new(),
        provider: String::new(),
        amount: 0,
        payment_dt: 0,
        bank: String::new(),
        delivery_cost: 0,
        goods_total: 0,
        custom_fee: 0,
    };
    let mut f_items: Vec<Item> = Vec::new();
    if ok {
        match expect_lit(v, j, "{\"order_uid\":") {
            Some(x) => {
                j = x;
            },
            None => {
                ok = false;
            },
        }
    }
    if ok {
        match parse_string(v, j) {
            Some(p2) => {
                f_order_uid = p2.0;
                j = p2.1;
            },
            None => {
                ok = false;
            },
        }
    }
    if ok {
        match expect_lit(v, j, ",\"track_number\":") {
            Some(x) => {
                j = x;
            },
            None => {
                ok = false;
            },
        }
    }
    if ok {
        match parse_string(v, j) {
            Some(p2) => {
                f_track_number = p2.0;
                j = p2.1;
            },
            None => {
                ok = false;
            },
        }
    }
    if ok {
        match expect_lit(v, j, ",\"entry\":") {
            Some(x) => {
                j = x;
            },
            None => {
                ok = false;
            },
        }
    }
    if ok {
        match parse_string(v, j) {
            Some(p2) => {
                f_entry = p2.0;
                j = p2.1;
            },
            None => {
                ok = false;
            },
        }
    }
    if ok {
        match expect_lit(v, j, ",\"delivery\":") {
            Some(x) => {
                j = x;
            },
            None => {
                ok = false;
            },
        }
    }
    if ok {
        match parse_delivery(v, j) {
            Some(p2) => {
                f_delivery = p2.0;
                j = p2.1;
            },
            None => {
                ok = false;
            },
        }
    }
    if ok {
        match expect_lit(v, j, ",\"payment\":") {
            Some(x) => {
                j = x;
            },
            None => {
                ok = false;
            },
        }
    }
    if ok {
        match parse_payment(v, j) {
            Some(p2) => {
                f_payment = p2.0;
                j = p2.1;
            },
            None => {
                ok = false;
            },
        }
    }
    if ok {
        match expect_lit(v, j, ",\"items\":") {
            Some(x) => {
                j = x;
            },
            None => {
                ok = false;
            },
        }
    }
    if ok {
        match parse_items(v, j) {
            Some(p2) => {
                f_items = p2.0;
                j = p2.1;
            },
            None => {
                ok = false;
            },
        }
    }
    let mut built = Order {
        order_uid: f_order_uid,
        track_number: f_track_number,
        entry: f_entry,
        delivery: f_delivery,
        payment: f_payment,
        items: f_items,
        locale: String::new(),
        internal_signature: String::new(),
        customer_id: String::new(),
        delivery_service: String::new(),
        shared_key: String::new(),
        sm_id: 0,
        date_created: String::new(),
        oof_shard: String::new(),
    };
    if ok {
        match parse_order_tail(v, j, &mut built) {
            Some(x) => {
                j = x;
            },
            None => {
                ok = false;
            },
        }
    }
    proof {
        assert forall|o: OrderView, rest: Seq<char>| #![trigger enc_order(o) + rest]
            v@.skip(pos as int) == enc_order(o) + rest implies ok && built@ == o && j == pos
            + enc_order(o).len() by {
            lemma_order_shape(v@, pos as int, o, rest);
            assert(built@ =~= o);
        }
    }
    if !ok {
        return None;
    }
    Some((built, j))
}

/// Reads the remainder of an item array: comma-item pairs up to the
/// closing bracket, which is consumed.
fn parse_items_rest(v: &Vec<char>, pos: usize, out: &mut Vec<Item>) -> (r: Option<usize>)
    requires
        pos <= v@.len(),
    ensures
        (match r {
            Some(j) => pos < j <= v@.len(),
            None => true,
        }),
        forall|s: Seq<ItemView>, rest: Seq<char>| #![trigger enc_items_tail(s) + ("]"@ + rest)]
            v@.skip(pos as int) == enc_items_tail(s) + ("]"@ + rest) ==> r is Some
                && final(out).deep_view() == old(out).deep_view() + s
                && r->0 == pos + enc_items_tail(s).len() + 1,
    decreases v@.len() - pos,
{
    proof {
        reveal_strlit(",");
        reveal_strlit("]");
        assert(v@.skip(pos as int).len() == v@.len() - pos);
        if pos < v@.len() {
            assert(v@.skip(pos as int)[0] == v@[pos as int]);
        }
    }
    if pos >= v.len() {
        proof {
            assert forall|s: Seq<ItemView>, rest: Seq<char>|
                #![trigger enc_items_tail(s) + ("]"@ + rest)]
                v@.skip(pos as int) != enc_items_tail(s) + ("]"@ + rest) by {
                if v@.skip(pos as int) == enc_items_tail(s) + ("]"@ + rest) {
                    assert((enc_items_tail(s) + ("]"@ + rest)).len() >= 1);
                    assert(false);
                }
            }
        }
        return None;
    }
    let c = v[pos];
    if c == ']' {
        proof {
            assert forall|s: Seq<ItemView>, rest: Seq<char>|
                #![trigger enc_items_tail(s) + ("]"@ + rest)]
                v@.skip(pos as int) == enc_items_tail(s) + ("]"@ + rest) implies s.len() == 0
                && out.deep_view() == out.deep_view() + s && pos + 1 == pos + enc_items_tail(
                s,
            ).len() + 1 by {
                if s.len() > 0 {
                    assert(enc_items_tail(s)[0] == ',');
                    assert((enc_items_tail(s) + ("]"@ + rest))[0] == ',');
                    assert(false);
                }
                assert(out.deep_view() + s =~= out.deep_view());
            }
        }
        return Some(pos + 1);
    }
    if c != ',' {
        proof {
            assert forall|s: Seq<ItemView>, rest: Seq<char>|
                #![trigger enc_items_tail(s) + ("]"@ + rest)]
                v@.skip(pos as int) != enc_items_tail(s) + ("]"@ + rest) by {
                if v@.skip(pos as int) == enc_items_tail(s) + ("]"@ + rest) {
                    if s.len() == 0 {
                        assert(v@.skip(pos as int) =~= "]"@ + rest);
                        assert(v@.skip(pos as int)[0] == ']');
                    } else {
                        assert(enc_items_tail(s)[0] == ',');
                        assert((enc_items_tail(s) + ("]"@ + rest))[0] == ',');
                    }
                    assert(false);
                }
            }
        }
        return None;
    }
    let itp = match parse_item(v, pos + 1) {
        Some(p) => p,
        None => {
            proof {
                assert forall|s: Seq<ItemView>, rest: Seq<char>|
                    #![trigger enc_items_tail(s) + ("]"@ + rest)]
                    v@.skip(pos as int) != enc_items_tail(s) + ("]"@ + rest) by {
                    if v@.skip(pos as int) == enc_items_tail(s) + ("]"@ + rest) {
                        if s.len() == 0 {
                            assert(v@.skip(pos as int) =~= "]"@ + rest);
                            assert(v@.skip(pos as int)[0] == ']');
                        } else {
                            let tl = enc_items_tail(s.drop_first());
                            let x = enc_item(s[0]) + tl;
                            assert(enc_items_tail(s) == ","@ + x);
                            lemma_add_assoc(","@, x, "]"@ + rest);
                            lemma_step(v@, pos as int, ","@, x + ("]"@ + rest));
                            lemma_add_assoc(enc_item(s[0]), tl, "]"@ + rest);
                        }
                        assert(false);
                    }
                }
            }
            return None;
        },
    };
    out.push(itp.0);
    let jr = match parse_items_rest(v, itp.1, out) {
        Some(j) => j,
        None => {
            proof {
                assert forall|s: Seq<ItemView>, rest: Seq<char>|
                    #![trigger enc_items_tail(s) + ("]"@ + rest)]
                    v@.skip(pos as int) != enc_items_tail(s) + ("]"@ + rest) by {
                    if v@.skip(pos as int) == enc_items_tail(s) + ("]"@ + rest) {
                        if s.len() == 0 {
                            assert(v@.skip(pos as int) =~= "]"@ + rest);
                            assert(v@.skip(pos as int)[0] == ']');
                        } else {
                            let tl = enc_items_tail(s.drop_first());
                            let x = enc_item(s[0]) + tl;
                            assert(enc_items_tail(s) == ","@ + x);
                            lemma_add_assoc(","@, x, "]"@ + rest);
                            lemma_step(v@, pos as int, ","@, x + ("]"@ + rest));
                            lemma_add_assoc(enc_item(s[0]), tl, "]"@ + rest);
                            lemma_step(v@, pos as int + 1, enc_item(s[0]), tl + ("]"@ + rest));
                        }
                        assert(false);
                    }
                }
            }
            return None;
        },
    };
    proof {
        assert forall|s: Seq<ItemView>, rest: Seq<char>|
            #![trigger enc_items_tail(s) + ("]"@ + rest)]
            v@.skip(pos as int) == enc_items_tail(s) + ("]"@ + rest) implies out.deep_view()
            == old(out).deep_view() + s && jr == pos + enc_items_tail(s).len() + 1 by {
            if s.len() == 0 {
                assert(v@.skip(pos as int) =~= "]"@ + rest);
                assert(v@.skip(pos as int)[0] == ']');
                assert(false);
            }
            let tl = enc_items_tail(s.drop_first());
            let x = enc_item(s[0]) + tl;
            assert(enc_items_tail(s) == ","@ + x);
            lemma_add_assoc(","@, x, "]"@ + rest);
            lemma_step(v@, pos as int, ","@, x + ("]"@ + rest));
            lemma_add_assoc(enc_item(s[0]), tl, "]"@ + rest);
            lemma_step(v@, pos as int + 1, enc_item(s[0]), tl + ("]"@ + rest));
            assert(old(out).deep_view().push(s[0]) + s.drop_first() =~= old(out).deep_view()
                + s);
        }
    }
    Some(jr)
}

/// Reads a canonical item array at this position.
fn parse_items(v: &Vec<char>, pos: usize) -> (r: Option<(Vec<Item>, usize)>)
    requires
        pos <= v@.len(),
    ensures
        (match r {
            Some(p) => pos < p.1 <= v@.len(),
            None => true,
        }),
        forall|s: Seq<ItemView>, rest: Seq<char>| #![trigger enc_items(s) + rest]
            v@.skip(pos as int) == enc_items(s) + rest ==> r is Some && (r->0).0.deep_view()
                == s && (r->0).1 == pos + enc_items(s).len(),
{
    proof {
        reveal_strlit("[");
        reveal_strlit("]");
        reveal_strlit("[]");
        reveal_strlit("{\"chrt_id\":");
        assert(v@.skip(pos as int).len() == v@.len() - pos);
        if pos < v@.len() {
            assert(v@.skip(pos as int)[0] == v@[pos as int]);
        }
    }
    let j0 = match expect_lit(v, pos, "[") {
        Some(j) => j,
        None => {
            proof {
                assert forall|s: Seq<ItemView>, rest: Seq<char>| #![trigger enc_items(s) + rest]
                    v@.skip(pos as int) != enc_items(s) + rest by {
                    if v@.skip(pos as int) == enc_items(s) + rest {
                        if s.len() == 0 {
                            assert(enc_items(s)[0] == '[');
                            assert((enc_items(s) + rest)[0] == '[');
                            assert("["@.is_prefix_of(v@.skip(pos as int)));
                        } else {
                            let tl = enc_items_tail(s.drop_first());
                            let x = enc_item(s[0]) + (tl + "]"@);
                            assert(enc_items(s) == "["@ + x);
                            lemma_add_assoc("["@, x, rest);
                            lemma_step(v@, pos as int, "["@, x + rest);
                        }
                        assert(false);
                    }
                }
            }
            return None;
        },
    };
    let mut out: Vec<Item> = Vec::new();
    if j0 < v.len() && v[j0] == ']' {
        proof {
            assert(v@.skip(pos as int)[1] == v@[j0 as int]);
            assert forall|s: Seq<ItemView>, rest: Seq<char>| #![trigger enc_items(s) + rest]
                v@.skip(pos as int) == enc_items(s) + rest implies s.len() == 0
                && out.deep_view() == s && j0 + 1 == pos + enc_items(s).len() by {
                if s.len() > 0 {
                    let tl = enc_items_tail(s.drop_first());
                    let x = enc_item(s[0]) + (tl + "]"@);
                    assert(enc_items(s) == "["@ + x);
                    lemma_add_assoc("["@, x, rest);
                    lemma_step(v@, pos as int, "["@, x + rest);
                    reveal(enc_item);
                    assert(v@.skip(pos as int + 1)[0] == v@[pos as int + 1]);
                    assert((x + rest)[0] == enc_item(s[0])[0]);
                    assert(enc_item(s[0])[0] == '{');
                    assert(false);
                }
                assert(enc_items(s) == "[]"@);
                assert((enc_items(s) + rest)[1] == ']');
                assert(out.deep_view() =~= s);
            }
        }
        return Some((out, j0 + 1));
    }
    let itp = match parse_item(v, j0) {
        Some(p) => p,
        None => {
            proof {
                assert forall|s: Seq<ItemView>, rest: Seq<char>| #![trigger enc_items(s) + rest]
                    v@.skip(pos as int) != enc_items(s) + rest by {
                    if v@.skip(pos as int) == enc_items(s) + rest {
                        if s.len() == 0 {
                            assert(enc_items(s) == "[]"@);
                            assert((enc_items(s) + rest).len() >= 2);
                            assert(v@.skip(pos as int)[1] == (enc_items(s) + rest)[1]);
                            assert(v@.skip(pos as int)[1] == v@[j0 as int]);
                            assert((enc_items(s) + rest)[1] == ']');
                        } else {
                            let tl = enc_items_tail(s.drop_first());
                            let x = enc_item(s[0]) + (tl + "]"@);
                            assert(enc_items(s) == "["@ + x);
                            lemma_add_assoc("["@, x, rest);
                            lemma_step(v@, pos as int, "["@, x + rest);
                            lemma_add_assoc(enc_item(s[0]), tl + "]"@, rest);
                        }
                        assert(false);
                    }
                }
            }
            return None;
        },
    };
    out.push(itp.0);
    let jr = match parse_items_rest(v, itp.1, &mut out) {
        Some(j) => j,
        None => {
            proof {
                assert forall|s: Seq<ItemView>, rest: Seq<char>| #![trigger enc_items(s) + rest]
                    v@.skip(pos as int) != enc_items(s) + rest by {
                    if v@.skip(pos as int) == enc_items(s) + rest {
                        if s.len() == 0 {
                            assert(enc_items(s) == "[]"@);
                            assert((enc_items(s) + rest).len() >= 2);
                            assert(v@.skip(pos as int)[1] == (enc_items(s) + rest)[1]);
                            assert(v@.skip(pos as int)[1] == v@[j0 as int]);
                            assert((enc_items(s) + rest)[1] == ']');
                        } else {
                            let tl = enc_items_tail(s.drop_first());
                            let x = enc_item(s[0]) + (tl + "]"@);
                            assert(enc_items(s) == "["@ + x);
                            lemma_add_assoc("["@, x, rest);
                            lemma_step(v@, pos as int, "["@, x + rest);
                            lemma_add_assoc(enc_item(s[0]), tl + "]"@, rest);
                            lemma_step(v@, pos as int + 1, enc_item(s[0]), (tl + "]"@) + rest);
                            lemma_add_assoc(tl, "]"@, rest);
                        }
                        assert(false);
                    }
                }
            }
            return None;
        },
    };
    proof {
        assert forall|s: Seq<ItemView>, rest: Seq<char>| #![trigger enc_items(s) + rest]
            v@.skip(pos as int) == enc_items(s) + rest implies out.deep_view() == s && jr == pos
            + enc_items(s).len() by {
            if s.len() == 0 {
                assert(enc_items(s) == "[]"@);
                assert((enc_items(s) + rest).len() >= 2);
                assert(v@.skip(pos as int)[1] == (enc_items(s) + rest)[1]);
                assert(v@.skip(pos as int)[1] == v@[j0 as int]);
                assert((enc_items(s) + rest)[1] == ']');
                assert(false);
            }
            let tl = enc_items_tail(s.drop_first());
            let x = enc_item(s[0]) + (tl + "]"@);
            assert(enc_items(s) == "["@ + x);
            lemma_add_assoc("["@, x, rest);
            lemma_step(v@, pos as int, "["@, x + rest);
            lemma_add_assoc(enc_item(s[0]), tl + "]"@, rest);
            lemma_step(v@, pos as int + 1, enc_item(s[0]), (tl + "]"@) + rest);
            lemma_add_assoc(tl, "]"@, rest);
            assert(Seq::<ItemView>::empty().push(s[0]) + s.drop_first() =~= s);
        }
    }
    Some((out, jr))
}

/// Reconstructs a document from a row text: decoding any canonical
/// encoding yields exactly the encoded document.
pub fn decode_order(s: &str) -> (r: Option<Order>)
    ensures
        forall|o: OrderView| #![trigger enc_order(o)] s@ == enc_order(o) ==> r is Some && r->0@
            == o,
{
    let v = str_to_chars(s);
    let p = match parse_order(&v, 0) {
        Some(p) => p,
        None => {
            proof {
                assert forall|o: OrderView| #![trigger enc_order(o)] s@ != enc_order(o) by {
                    if s@ == enc_order(o) {
                        assert(v@.skip(0) =~= enc_order(o) + Seq::<char>::empty());
                        assert(false);
                    }
                }
            }
            return None;
        },
    };
    if p.1 == v.len() {
        proof {
            assert forall|o: OrderView| #![trigger enc_order(o)] s@ == enc_order(o) implies p.0@
                == o by {
                assert(v@.skip(0) =~= enc_order(o) + Seq::<char>::empty());
            }
        }
        Some(p.0)
    } else {
        proof {
            assert forall|o: OrderView| #![trigger enc_order(o)] s@ != enc_order(o) by {
                if s@ == enc_order(o) {
                    assert(v@.skip(0) =~= enc_order(o) + Seq::<char>::empty());
                    assert((enc_order(o) + Seq::<char>::empty()).len() == enc_order(o).len());
                    assert(false);
                }
            }
        }
        None
    }
}

} // verus!
