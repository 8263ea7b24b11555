use vstd::prelude::*;

verus! {

/// Length of the command that the display accepts.
pub const DATA_LENGTH: usize = 38;

/// Offset of the brightness byte within the command.
pub const BRIGHTNESS_ADDRESS: usize = 6;

/// Highest brightness percentage.
pub const MAX_BRIGHTNESS: u8 = 100;

/// The command that sets brightness `b`: the magic `04 AA 01 00`, the
/// brightness at offset six, zeros everywhere else.
pub open spec fn command_spec(b: u8) -> Seq<u8> {
    Seq::new(
        DATA_LENGTH as nat,
        |i: int|
            if i == 0 {
                0x04u8
            } else if i == 1 {
                0xAAu8
            } else if i == 2 {
                0x01u8
            } else if i == BRIGHTNESS_ADDRESS {
                b
            } else {
                0u8
            },
    )
}

/// Builds the command for brightness `brightness` (a percentage).
pub fn command_buffer(brightness: u8) -> (r: Vec<u8>)
    requires
        brightness <= MAX_BRIGHTNESS,
    ensures
        r@ == command_spec(brightness),
{
    let mut r: Vec<u8> = Vec::new();
    let mut i: usize = 0;
    while i < DATA_LENGTH
        invariant
            i <= DATA_LENGTH,
            r@ == command_spec(brightness).take(i as int),
        decreases DATA_LENGTH - i,
    {
        let byte: u8 = if i == 0 {
            0x04
        } else if i == 1 {
            0xAA
        } else if i == 2 {
            0x01
        } else if i == BRIGHTNESS_ADDRESS {
            brightness
        } else {
            0
        };
        r.push(byte);
        i = i + 1;
        assert(r@ =~= command_spec(brightness).take(i as int));
    }
    assert(r@ =~= command_spec(brightness));
    r
}

/// Every command has the fixed length, starts with the magic bytes, holds the
/// brightness at its offset and zeros elsewhere.
pub proof fn lemma_command_layout(b: u8)
    requires
        b <= MAX_BRIGHTNESS,
    ensures
        command_spec(b).len() == DATA_LENGTH,
        command_spec(b).take(4) == seq![0x04u8, 0xAAu8, 0x01u8, 0x00u8],
        command_spec(b)[BRIGHTNESS_ADDRESS as int] == b,
        forall|i: int|
            4 <= i < DATA_LENGTH && i != BRIGHTNESS_ADDRESS ==> #[trigger] command_spec(b)[i] == 0,
{
    assert(command_spec(b).take(4) =~= seq![0x04u8, 0xAAu8, 0x01u8, 0x00u8]);
}

/// The command is a function of the brightness alone: building it twice for
/// one brightness gives the same bytes, and two brightnesses never give the
/// same bytes.
pub proof fn lemma_command_deterministic(a: u8, b: u8)
    requires
        a <= MAX_BRIGHTNESS,
        b <= MAX_BRIGHTNESS,
    ensures
        command_spec(a) == command_spec(b) <==> a == b,
{
    if command_spec(a) == command_spec(b) {
        assert(command_spec(a)[BRIGHTNESS_ADDRESS as int] == command_spec(b)[BRIGHTNESS_ADDRESS as int]);
    }
}

} // verus!
