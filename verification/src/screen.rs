use crate::cpu::cpu::CPU;
use crate::cpu::state::CpuState;
use vstd::prelude::*;

verus! {

/// Where in memory the screen of 32 by 32 cells begins.
pub const SCREEN_START: u16 = 0x0200;

/// Where the program looks for the last key pressed.
pub const LAST_KEY: u16 = 0x00FF;

/// Where the program looks for a random number.
pub const RANDOM_NUMBER: u16 = 0x00FE;

/// The four ways the snake can be sent.
#[derive(Clone, Copy, PartialEq, Eq, Structural, Debug)]
pub enum Direction {
    Up,
    Down,
    Left,
    Right,
}

impl Direction {
    /// The byte that the program expects as the last key for a direction:
    /// the ASCII code of `w`, `s`, `a` or `d`.
    pub open spec fn spec_key(self) -> u8 {
        match self {
            Direction::Up => 0x77,
            Direction::Down => 0x73,
            Direction::Left => 0x61,
            Direction::Right => 0x64,
        }
    }

    pub fn key(&self) -> (byte: u8)
        ensures
            byte == self.spec_key(),
    {
        match self {
            Direction::Up => 0x77,
            Direction::Down => 0x73,
            Direction::Left => 0x61,
            Direction::Right => 0x64,
        }
    }
}

/// The colour of a screen cell that holds `byte`, as red, green and blue.
pub open spec fn cell_color(byte: u8) -> (u8, u8, u8) {
    if byte == 0 {
        (0, 0, 0)
    } else if byte == 1 {
        (255, 255, 255)
    } else if byte == 2 || byte == 9 {
        (128, 128, 128)
    } else if byte == 3 || byte == 10 {
        (255, 0, 0)
    } else if byte == 4 || byte == 11 {
        (0, 255, 0)
    } else if byte == 5 || byte == 12 {
        (0, 0, 255)
    } else if byte == 6 || byte == 13 {
        (255, 0, 255)
    } else if byte == 7 || byte == 14 {
        (255, 255, 0)
    } else {
        (0, 255, 255)
    }
}

/// One of the three parts of a colour: 0 is red, 1 green and 2 blue.
pub open spec fn channel(color: (u8, u8, u8), index: int) -> u8 {
    if index == 0 {
        color.0
    } else if index == 1 {
        color.1
    } else {
        color.2
    }
}

/// The picture of the screen that the machine holds in the 1024 bytes of
/// memory from 0x0200 on.
pub open spec fn screen_picture(cpu: CpuState) -> Seq<u8> {
    Seq::new(
        3072,
        |i: int| channel(cell_color(cpu.inspect((0x0200 + i / 3) as u16)), i % 3),
    )
}

pub fn color(byte: u8) -> (rgb: (u8, u8, u8))
    ensures
        rgb == cell_color(byte),
{
    match byte {
        0 => (0, 0, 0),
        1 => (255, 255, 255),
        2 | 9 => (128, 128, 128),
        3 | 10 => (255, 0, 0),
        4 | 11 => (0, 255, 0),
        5 | 12 => (0, 0, 255),
        6 | 13 => (255, 0, 255),
        7 | 14 => (255, 255, 0),
        _ => (0, 255, 255),
    }
}

/// Brings `frame` up to date with the screen in memory and says whether
/// anything in it changed.
pub fn read_screen_state(cpu: &CPU, frame: &mut [u8; 3072]) -> (update: bool)
    requires
        cpu@.wf(),
    ensures
        final(frame)@ == screen_picture(cpu@),
        update == (old(frame)@ != screen_picture(cpu@)),
{
    let mut frame_idx: usize = 0;
    let mut update = false;
    let mut cell: u16 = 0;
    while cell < 1024
        invariant
            cell <= 1024,
            frame_idx == cell * 3,
            cpu@.wf(),
            forall|i: int| 0 <= i < frame_idx ==> #[trigger] frame@[i] == screen_picture(cpu@)[i],
            forall|i: int| frame_idx <= i < 3072 ==> #[trigger] frame@[i] == old(frame)@[i],
            update == (exists|i: int|
                0 <= i < frame_idx && #[trigger] old(frame)@[i] != screen_picture(cpu@)[i]),
        decreases 1024 - cell,
    {
        let color_idx = cpu.inspect(SCREEN_START + cell);
        let (b1, b2, b3) = color(color_idx);
        proof {
            let picture = screen_picture(cpu@);
            assert(picture[frame_idx as int] == b1);
            assert(picture[frame_idx + 1] == b2);
            assert(picture[frame_idx + 2] == b3);
        }
        if frame[frame_idx] != b1 || frame[frame_idx + 1] != b2 || frame[frame_idx + 2] != b3 {
            frame[frame_idx] = b1;
            frame[frame_idx + 1] = b2;
            frame[frame_idx + 2] = b3;
            update = true;
        }
        frame_idx += 3;
        cell += 1;
    }
    proof {
        assert(frame@ =~= screen_picture(cpu@));
        if update {
            let i = choose|i: int|
                0 <= i < 3072 && #[trigger] old(frame)@[i] != screen_picture(cpu@)[i];
            assert(old(frame)@ != screen_picture(cpu@));
        } else {
            assert(old(frame)@ =~= screen_picture(cpu@));
        }
    }
    update
}

} // verus!
