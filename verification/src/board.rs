//! The Proto2 board: its buttons, which of them raise the GPIO interrupt,
//! and the start-up banner.
use vstd::prelude::*;
use vstd::string::StringExecFns;

verus! {

/// Name of the board.
pub const BOARD_NAME: &'static str = "Proto2";

/// The pins (as `32 * port + pin`) that keep the device awake: the four
/// buttons, in button order.
pub const KEEPALIVE_PINS: [u8; 4] = [0x2a, 0x2b, 0x0e, 0x21];

/// The GPIO port of button `i` (0 for P0, 1 for P1).
pub open spec fn button_port(i: int) -> int {
    if i == 2 {
        0
    } else {
        1
    }
}

/// The pin number of button `i` within its port.
pub open spec fn button_pin(i: int) -> u32 {
    if i == 0 {
        10
    } else if i == 1 {
        11
    } else if i == 2 {
        14
    } else {
        1
    }
}

/// The pin's bit is set in the port's word.
pub open spec fn pin_is_high(word: u32, pin: u32) -> bool {
    word & (1u32 << pin) != 0
}

/// Button `i` reads low (pressed, the buttons pull up) in the port words.
pub open spec fn button_low(levels: Seq<u32>, i: int) -> bool {
    !pin_is_high(levels[button_port(i)], button_pin(i))
}

/// The interrupt source word: bit `i` stands for button `i` reading low.
pub open spec fn irq_source_word(levels: Seq<u32>) -> u32 {
    ((if button_low(levels, 0) {
        1int
    } else {
        0
    }) + (if button_low(levels, 1) {
        2int
    } else {
        0
    }) + (if button_low(levels, 2) {
        4int
    } else {
        0
    }) + (if button_low(levels, 3) {
        8int
    } else {
        0
    })) as u32
}

fn bit_set(x: u32, y: u32) -> (set: bool)
    requires
        y < 32,
    ensures
        set == pin_is_high(x, y),
{
    (x & (1u32 << y)) != 0
}

/// Which buttons raised the GPIO interrupt, from the pin levels of port 0
/// (`levels[0]`) and port 1 (`levels[1]`): bit `i` is set when button `i`
/// reads low.
pub fn gpio_irq_sources(levels: &[u32]) -> (src: u32)
    requires
        levels@.len() >= 2,
    ensures
        src == irq_source_word(levels@),
{
    let mut src: u32 = 0;
    let ghost l = levels@;
    if !bit_set(levels[1], 10) {
        assert(0u32 | 1u32 == 1u32) by (bit_vector);
        src |= 0b0000_0001;
    }
    assert(src == (if button_low(l, 0) {
        1u32
    } else {
        0u32
    }));
    let s0 = src;
    if !bit_set(levels[1], 11) {
        assert(s0 | 2u32 == s0 + 2) by (bit_vector)
            requires
                s0 < 2,
        ;
        src |= 0b0000_0010;
    }
    let s1 = src;
    assert(s1 < 4);
    if !bit_set(levels[0], 14) {
        assert(s1 | 4u32 == s1 + 4) by (bit_vector)
            requires
                s1 < 4,
        ;
        src |= 0b0000_0100;
    }
    let s2 = src;
    assert(s2 < 8);
    if !bit_set(levels[1], 1) {
        assert(s2 | 8u32 == s2 + 8) by (bit_vector)
            requires
                s2 < 8,
        ;
        src |= 0b0000_1000;
    }
    src
}

/// Bit `i` of the interrupt source word is set exactly when button `i`
/// reads low, and no other bit is ever set.
pub proof fn lemma_irq_source_bits(levels: Seq<u32>)
    requires
        levels.len() >= 2,
    ensures
        irq_source_word(levels) < 16,
        forall|i: int|
            0 <= i < 4 ==> ((irq_source_word(levels) >> (i as u32)) & 1 == 1 <==> button_low(
                levels,
                i,
            )),
{
    let w = irq_source_word(levels);
    let b0 = button_low(levels, 0);
    let b1 = button_low(levels, 1);
    let b2 = button_low(levels, 2);
    let b3 = button_low(levels, 3);
    assert(w < 16);
    assert forall|i: int| 0 <= i < 4 implies ((w >> (i as u32)) & 1 == 1 <==> button_low(
        levels,
        i,
    )) by {
        assert(w == (if b0 { 1u32 } else { 0u32 }) + (if b1 { 2u32 } else { 0u32 }) + (if b2 {
            4u32
        } else {
            0u32
        }) + (if b3 { 8u32 } else { 0u32 }));
        let (x0, x1, x2, x3) = (
            if b0 { 1u32 } else { 0u32 },
            if b1 { 1u32 } else { 0u32 },
            if b2 { 1u32 } else { 0u32 },
            if b3 { 1u32 } else { 0u32 },
        );
        assert(w == x0 + 2 * x1 + 4 * x2 + 8 * x3);
        let k = i as u32;
        assert((w >> k) & 1 == (if k == 0 {
            x0
        } else if k == 1 {
            x1
        } else if k == 2 {
            x2
        } else {
            x3
        })) by (bit_vector)
            requires
                w == x0 + 2 * x1 + 4 * x2 + 8 * x3,
                x0 < 2,
                x1 < 2,
                x2 < 2,
                x3 < 2,
                k < 4,
        ;
    }
}

/// Bit 0 of the interrupt source word reports P1.10, bit 1 P1.11, bit 2
/// P0.14 and bit 3 P1.01, each set exactly when that pin's bit in its port's
/// level word is clear.
pub proof fn lemma_irq_source_pins(levels: Seq<u32>)
    requires
        levels.len() >= 2,
    ensures
        irq_source_word(levels) < 16,
        irq_source_word(levels) % 2 == 1 <==> levels[1] & 0x400 == 0,
        (irq_source_word(levels) / 2) % 2 == 1 <==> levels[1] & 0x800 == 0,
        (irq_source_word(levels) / 4) % 2 == 1 <==> levels[0] & 0x4000 == 0,
        (irq_source_word(levels) / 8) % 2 == 1 <==> levels[1] & 0x2 == 0,
{
    assert(1u32 << 10u32 == 0x400) by (bit_vector);
    assert(1u32 << 11u32 == 0x800) by (bit_vector);
    assert(1u32 << 14u32 == 0x4000) by (bit_vector);
    assert(1u32 << 1u32 == 0x2) by (bit_vector);
}

/// The keep-alive pins are the four button pins, in button order.
pub proof fn lemma_keepalive_pins_are_buttons()
    ensures
        forall|i: int|
            KEEPALIVE_PINS@.len() == 4 && (0 <= i < 4 ==> KEEPALIVE_PINS@[i] as int == 32 * button_port(i) + button_pin(i)),
{
}

/// The start-up banner: `Embedded Runner ({soc}:{board}) using librunner
/// {major}.{minor}.{patch}`.
pub open spec fn banner_chars(
    soc: Seq<char>,
    board: Seq<char>,
    major: Seq<char>,
    minor: Seq<char>,
    patch: Seq<char>,
) -> Seq<char> {
    "Embedded Runner ("@ + soc + ":"@ + board + ") using librunner "@ + major + "."@ + minor
        + "."@ + patch
}

/// The banner holds the SoC and board names whole between `(` and `)`, and
/// ends with the three version fields, each whole, separated by dots.
pub proof fn lemma_banner_fields(
    soc: Seq<char>,
    board: Seq<char>,
    major: Seq<char>,
    minor: Seq<char>,
    patch: Seq<char>,
)
    ensures
        ({
            let b = banner_chars(soc, board, major, minor, patch);
            let v = major + seq!['.'] + minor + seq!['.'] + patch;
            let n = b.len() as int;
            &&& n == 38 + (soc.len() as int) + (board.len() as int) + major.len() + minor.len() + patch.len()
            &&& b[16] == '('
            &&& b.subrange(17, 17 + (soc.len() as int)) == soc
            &&& b[17 + (soc.len() as int)] == ':'
            &&& b.subrange(18 + (soc.len() as int), 18 + (soc.len() as int) + (board.len() as int)) == board
            &&& b[18 + (soc.len() as int) + (board.len() as int)] == ')'
            &&& b.subrange(n - v.len(), n) == v
            &&& b[n - v.len() - 1] == ' '
        }),
{
    reveal_strlit("Embedded Runner (");
    reveal_strlit(":");
    reveal_strlit(") using librunner ");
    reveal_strlit(".");
    let b = banner_chars(soc, board, major, minor, patch);
    let v = major + seq!['.'] + minor + seq!['.'] + patch;
    let head = "Embedded Runner ("@ + soc + ":"@ + board + ") using librunner "@;
    assert(b =~= head + v);
    assert(head.len() == 36 + (soc.len() as int) + (board.len() as int));
    let e = "Embedded Runner ("@;
    let u = ") using librunner "@;
    assert(e.len() == 17);
    assert(u.len() == 18);
    assert(b[16] == e[16]);
    assert(b[17 + (soc.len() as int)] == ':');
    assert(b[18 + (soc.len() as int) + (board.len() as int)] == u[0]);
    assert(b[b.len() - v.len() - 1] == u[17]);
    assert(b.len() == 38 + (soc.len() as int) + (board.len() as int) + major.len() + minor.len() + patch.len());
    assert(b.subrange(b.len() - v.len(), b.len() as int) =~= v);
    assert(b.subrange(17, 17 + (soc.len() as int)) =~= soc);
    assert(b.subrange(18 + (soc.len() as int), 18 + (soc.len() as int) + (board.len() as int)) =~= board);
}

/// The start-up banner line for the given SoC and board names and runner
/// version fields.
pub fn banner(soc: &str, board: &str, major: &str, minor: &str, patch: &str) -> (line: String)
    ensures
        line@ == banner_chars(soc@, board@, major@, minor@, patch@),
        line@ == "Embedded Runner ("@ + soc@ + ":"@ + board@ + ") using librunner "@ + major@
            + "."@ + minor@ + "."@ + patch@,
{
    let mut line = String::from_str("Embedded Runner (");
    line.append(soc);
    line.append(":");
    line.append(board);
    line.append(") using librunner ");
    line.append(major);
    line.append(".");
    line.append(minor);
    line.append(".");
    line.append(patch);
    line
}

} // verus!
