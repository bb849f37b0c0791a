//! What the text display is asked to show: the text of each message and
//! the place where it goes.
use vstd::prelude::*;
use vstd::string::StringSliceAdditionalSpecFns;

verus! {

/// Bus address of the display.
pub const LCD_ADDRESS: u8 = 0x27;

/// Distance between the display's memory addresses of two rows.
pub const ROW_STRIDE: u8 = 40;

/// Column at which the duty cycle's digits start.
pub const DUTY_COLUMN: u8 = 5;

/// Processor cycles that the display's driver is made to wait for each
/// microsecond: one cycle of the system clock takes about 20 ns.
pub const CYCLES_PER_MICROSECOND: u32 = 50;

/// Processor cycles to wait for a delay in microseconds.
pub fn delay_cycles_us(us: u16) -> (cycles: u32)
    ensures
        cycles == us * CYCLES_PER_MICROSECOND,
{
    us as u32 * CYCLES_PER_MICROSECOND
}

/// Processor cycles to wait for a delay in milliseconds.
pub fn delay_cycles_ms(ms: u8) -> (cycles: u32)
    ensures
        cycles == ms * CYCLES_PER_MICROSECOND * 1000,
{
    ms as u32 * CYCLES_PER_MICROSECOND * 1000
}

/// The character `0`.
pub const ASCII_ZERO: u8 = 48;

/// The character `%`.
pub const ASCII_PERCENT: u8 = 37;

/// The decimal digits of a number as ASCII, most significant first; zero
/// has none.
pub open spec fn decimal_digits(n: nat) -> Seq<u8>
    decreases n,
{
    if n == 0 {
        Seq::<u8>::empty()
    } else {
        decimal_digits(n / 10).push((ASCII_ZERO + n % 10) as u8)
    }
}

/// Ten to the power of `k`.
pub open spec fn pow10(k: nat) -> nat
    decreases k,
{
    if k == 0 {
        1
    } else {
        10 * pow10((k - 1) as nat)
    }
}

/// One piece of text for the display, with the address at which it starts.
#[derive(Debug)]
pub struct LcdWrite {
    /// Address of the first character in the display's memory.
    pub position: u8,
    /// The characters.
    pub text: Vec<u8>,
}

/// The digits that the display shows for a duty cycle, with the percent
/// sign after them; more than 100 percent is shown as 100.
pub open spec fn duty_text(duty_cycle: u8) -> Seq<u8> {
    decimal_digits(
        if duty_cycle > 100 {
            100
        } else {
            duty_cycle as nat
        },
    ).push(ASCII_PERCENT)
}

/// Whether two pieces of text are the display of a duty cycle: the label
/// at the start of the first row, then the digits with the percent sign.
pub open spec fn is_duty_display(writes: (LcdWrite, LcdWrite), duty_cycle: u8) -> bool {
    &&& writes.0.position == 0
    &&& writes.0.text@ == "Fan:     ".spec_bytes()
    &&& writes.1.position == DUTY_COLUMN
    &&& writes.1.text@ == duty_text(duty_cycle)
}

/// The display's memory address of a row and a column.
pub open spec fn cursor_position(row: u8, column: u8) -> int {
    row as int * 40 + column as int
}

/// The text display: where it sits on the bus, and what to write to it.
#[derive(Clone, Copy, Debug)]
pub struct I2CLcd {
    address: u8,
}

impl I2CLcd {
    /// The display's bus address.
    pub closed spec fn bus_address(&self) -> u8 {
        self.address
    }

    /// The display at its usual address.
    pub fn new() -> (lcd: Self)
        ensures
            lcd.bus_address() == LCD_ADDRESS,
    {
        I2CLcd { address: LCD_ADDRESS }
    }

    /// The display's bus address.
    pub fn address(&self) -> (address: u8)
        ensures
            address == self.bus_address(),
    {
        self.address
    }

    /// The display of a duty cycle in percent, more than 100 shown as 100:
    /// first the label at the start of the first row, with blanks over what
    /// a longer number left behind, then the digits and a percent sign.
    pub fn write_duty_cycle(duty_cycle: u8) -> (writes: (LcdWrite, LcdWrite))
        ensures
            is_duty_display(writes, duty_cycle),
    {
        let duty: u8 = if duty_cycle > 100 {
            100
        } else {
            duty_cycle
        };
        let (start, bytes) = Self::from_number(duty as u32);
        let mut text: Vec<u8> = Vec::new();
        let mut i: usize = start;
        while i < 10
            invariant
                start <= i <= 10,
                text@ == bytes@.subrange(start as int, i as int),
            decreases 10 - i,
        {
            text.push(bytes[i]);
            assert(text@ =~= bytes@.subrange(start as int, i + 1));
            i += 1;
        }
        text.push(ASCII_PERCENT);
        (
            LcdWrite { position: 0, text: "Fan:     ".as_bytes_vec() },
            LcdWrite { position: DUTY_COLUMN, text },
        )
    }

    /// The display of a number: a label at the start of the first row,
    /// and the digits after it.
    pub fn write_number(number: u32) -> (write: LcdWrite)
        ensures
            write.position == 0,
            write.text@ == "DNum: ".spec_bytes() + decimal_digits(number as nat),
    {
        let (start, bytes) = Self::from_number(number);
        let mut text: Vec<u8> = "DNum: ".as_bytes_vec();
        let ghost label = text@;
        let mut i: usize = start;
        while i < 10
            invariant
                start <= i <= 10,
                text@ == label + bytes@.subrange(start as int, i as int),
            decreases 10 - i,
        {
            text.push(bytes[i]);
            assert(text@ =~= label + bytes@.subrange(start as int, i + 1));
            i += 1;
        }
        LcdWrite { position: 0, text }
    }

    /// A message at a row and a column.
    pub fn write_message(message: &str, position: (u8, u8)) -> (write: LcdWrite)
        requires
            cursor_position(position.0, position.1) <= u8::MAX,
        ensures
            write.position == cursor_position(position.0, position.1),
            write.text@ == message.spec_bytes(),
    {
        LcdWrite { position: position.0 * ROW_STRIDE + position.1, text: message.as_bytes_vec() }
    }

    /// The digits of a number, right-aligned in ten bytes, and the index of
    /// the first digit. Zero has no digits: its index is ten, past the end,
    /// though the last byte holds a `0`. The bytes before the first digit
    /// are zero bytes otherwise.
    pub fn from_number(number: u32) -> (out: (usize, [u8; 10]))
        ensures
            out.0 == 10 - decimal_digits(number as nat).len(),
            out.1@.subrange(out.0 as int, 10) == decimal_digits(number as nat),
            forall|i: int|
                0 <= i < out.0 ==> #[trigger] out.1[i] == (if number == 0 && i == 9 {
                    ASCII_ZERO
                } else {
                    0u8
                }),
    {
        let mut ans: [u8; 10] = [0u8; 10];
        let mut ans_start: usize = 10;
        let mut rest: u32 = number;
        ans[9] = ASCII_ZERO;
        proof {
            assert(pow10(10) == 10_000_000_000nat) by {
                reveal_with_fuel(pow10, 11);
            }
            assert(pow10(0) == 1);
            assert(rest as nat * pow10(0) == rest);
            assert(decimal_digits(rest as nat) + ans@.subrange(10, 10) =~= decimal_digits(
                number as nat,
            ));
        }
        while rest > 0 && ans_start > 0
            invariant
                ans_start <= 10,
                rest as nat * pow10((10 - ans_start) as nat) <= number,
                decimal_digits(rest as nat) + ans@.subrange(ans_start as int, 10)
                    == decimal_digits(number as nat),
                forall|i: int|
                    0 <= i < ans_start ==> #[trigger] ans[i] == (if i == 9 {
                        ASCII_ZERO
                    } else {
                        0u8
                    }),
            decreases ans_start,
        {
            let ghost before = ans@;
            let ghost old_start = ans_start;
            let digit: u8 = (rest % 10) as u8;
            ans_start -= 1;
            ans[ans_start] = ASCII_ZERO + digit;
            proof {
                let tail = before.subrange(old_start as int, 10);
                assert(ans@.subrange(ans_start as int, 10) =~= seq![(48 + rest % 10) as u8] + tail);
                assert(decimal_digits(rest as nat) == decimal_digits((rest / 10) as nat).push(
                    (48 + rest % 10) as u8,
                ));
                assert(decimal_digits((rest / 10) as nat) + ans@.subrange(ans_start as int, 10)
                    =~= decimal_digits(rest as nat) + tail);
                assert(pow10((10 - ans_start) as nat) == 10 * pow10((10 - old_start) as nat));
                assert((rest / 10) as nat * (10 * pow10((10 - old_start) as nat)) <= rest as nat
                    * pow10((10 - old_start) as nat)) by (nonlinear_arith)
                    requires
                        (rest / 10) * 10 <= rest,
                        rest >= 0,
                ;
            }
            rest /= 10;
        }
        proof {
            if rest > 0 {
                assert(ans_start == 0);
                assert(rest as nat * pow10(10) >= pow10(10)) by (nonlinear_arith)
                    requires
                        rest >= 1,
                ;
            }
            assert(decimal_digits(0) =~= Seq::<u8>::empty());
            assert(ans@.subrange(ans_start as int, 10) =~= decimal_digits(number as nat));
            assert(ans@.subrange(ans_start as int, 10).len() == 10 - ans_start);
            if number != 0 {
                assert(ans_start < 10);
            }
        }
        (ans_start, ans)
    }
}

} // verus!
