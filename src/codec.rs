use vstd::prelude::*;

verus! {

/// The uppercase hexadecimal digit for `n < 16`.
pub open spec fn hex_digit(n: u8) -> char {
    if n < 10 {
        (48 + n) as char
    } else {
        (55 + n) as char
    }
}

/// Hex rendering of one byte: two uppercase digits and a space.
pub open spec fn hex_of(b: u8) -> Seq<char> {
    seq![hex_digit(b / 16), hex_digit(b % 16), ' ']
}

/// Ascii rendering of one byte: a tab becomes four spaces, any other byte
/// is the character with that code.
pub open spec fn ascii_of(b: u8) -> Seq<char> {
    if b == 9 {
        seq![' ', ' ', ' ', ' ']
    } else {
        seq![b as char]
    }
}

pub open spec fn render_byte(b: u8, hex: bool) -> Seq<char> {
    if hex {
        hex_of(b)
    } else {
        ascii_of(b)
    }
}

/// Rendering of a byte sequence: the renderings of its bytes, in order.
pub open spec fn render(bytes: Seq<u8>, hex: bool) -> Seq<char>
    decreases bytes.len(),
{
    if bytes.len() == 0 {
        Seq::empty()
    } else {
        render(bytes.drop_last(), hex) + render_byte(bytes.last(), hex)
    }
}

/// Rendering distributes over concatenation.
pub proof fn lemma_render_append(a: Seq<u8>, b: Seq<u8>, hex: bool)
    ensures
        render(a + b, hex) == render(a, hex) + render(b, hex),
    decreases b.len(),
{
    if b.len() == 0 {
        assert(a + b =~= a);
        assert(render(a, hex) + render(b, hex) =~= render(a, hex));
    } else {
        lemma_render_append(a, b.drop_last(), hex);
        assert((a + b).drop_last() =~= a + b.drop_last());
        assert(render(a + b, hex) =~= render(a, hex) + render(b, hex));
    }
}

/// Rendering of the first `i + 1` bytes extends that of the first `i`.
pub proof fn lemma_render_take(bytes: Seq<u8>, i: int, hex: bool)
    requires
        0 <= i < bytes.len(),
    ensures
        render(bytes.take(i + 1), hex) == render(bytes.take(i), hex) + render_byte(bytes[i], hex),
{
    assert(bytes.take(i + 1).drop_last() =~= bytes.take(i));
}

/// Each byte of a sequence renders in hex as its own three characters, in
/// order: the high digit, the low digit, a space. The digits are `0`-`9`
/// and uppercase `A`-`F`.
pub proof fn lemma_render_hex(bytes: Seq<u8>)
    ensures
        render(bytes, true).len() == 3 * bytes.len(),
        forall|i: int|
            #![trigger bytes[i]]
            0 <= i < bytes.len() ==> render(bytes, true).subrange(3 * i, 3 * i + 3) == seq![
                hex_digit(bytes[i] / 16),
                hex_digit(bytes[i] % 16),
                ' ',
            ],
        forall|n: u8|
            n < 16 ==> (('0' <= #[trigger] hex_digit(n) <= '9') || ('A' <= hex_digit(n) <= 'F')),
    decreases bytes.len(),
{
    if bytes.len() > 0 {
        let init = bytes.drop_last();
        lemma_render_hex(init);
        let r = render(bytes, true);
        assert(r == render(init, true) + hex_of(bytes.last()));
        assert forall|i: int| #![trigger bytes[i]] 0 <= i < bytes.len() implies r.subrange(
            3 * i,
            3 * i + 3,
        ) == seq![hex_digit(bytes[i] / 16), hex_digit(bytes[i] % 16), ' '] by {
            if i < init.len() {
                assert(init[i] == bytes[i]);
                assert(r.subrange(3 * i, 3 * i + 3) =~= render(init, true).subrange(3 * i, 3 * i + 3));
            } else {
                assert(r.subrange(3 * i, 3 * i + 3) =~= hex_of(bytes.last()));
            }
        }
    }
}

fn hex_digit_exec(n: u8) -> (c: char)
    requires
        n < 16,
    ensures
        c == hex_digit(n),
{
    if n < 10 {
        (48 + n) as char
    } else {
        (55 + n) as char
    }
}

/// Appends two uppercase hex digits and a space for `byte`.
pub fn push_hex(s: &mut Vec<char>, byte: u8)
    ensures
        final(s)@ == old(s)@ + hex_of(byte),
{
    s.push(hex_digit_exec(byte / 16));
    s.push(hex_digit_exec(byte % 16));
    s.push(' ');
    assert(final(s)@ =~= old(s)@ + hex_of(byte));
}

/// Appends `byte` as a character, or four spaces for a tab.
pub fn push_ascii(s: &mut Vec<char>, byte: u8)
    ensures
        final(s)@ == old(s)@ + ascii_of(byte),
{
    if byte == 9 {
        s.push(' ');
        s.push(' ');
        s.push(' ');
        s.push(' ');
    } else {
        s.push(byte as char);
    }
    assert(final(s)@ =~= old(s)@ + ascii_of(byte));
}

/// Appends the rendering of `bytes` in the chosen encoding.
pub fn push_rendered(s: &mut Vec<char>, bytes: &[u8], hex: bool)
    ensures
        final(s)@ == old(s)@ + render(bytes@, hex),
{
    let ghost start = s@;
    let mut i: usize = 0;
    assert(bytes@.take(0) =~= Seq::<u8>::empty());
    while i < bytes.len()
        invariant
            i <= bytes@.len(),
            s@ == start + render(bytes@.take(i as int), hex),
        decreases bytes@.len() - i,
    {
        proof {
            lemma_render_take(bytes@, i as int, hex);
        }
        if hex {
            push_hex(s, bytes[i]);
        } else {
            push_ascii(s, bytes[i]);
        }
        i = i + 1;
        assert(s@ =~= start + render(bytes@.take(i as int), hex));
    }
    assert(bytes@.take(i as int) =~= bytes@);
}

} // verus!
