//! The state behind the ROM-path input: the path typed so far and the
//! outcome of the last load.
use vstd::prelude::*;
use crate::cpu::{CpuError, RomLoadResult};

verus! {

/// What the ROM-path input reports.
#[derive(Debug, Clone)]
pub enum Message {
    /// The path was edited.
    RomPathChanged(String),
    /// A load of the path was asked for.
    LoadRom,
}

/// What the ROM-path input shows about the last load.
#[derive(Debug, Clone, Copy, PartialEq, Eq, Structural)]
pub enum LoadStatus {
    /// The last load succeeded with this many bytes.
    Loaded { bytes: usize },
    /// Nothing was loaded yet.
    NotLoaded,
    /// The last load failed after an earlier one had succeeded.
    Failed,
}

/// The path to load a ROM from and the outcome of the last load.
pub struct RomLoader {
    pub rom_path: String,
    pub size_bytes: usize,
    pub read_status: bool,
}

impl RomLoader {
    /// A loader on the bundled opcode test ROM, with nothing loaded yet.
    pub fn new() -> (r: RomLoader)
        ensures
            r.rom_path@ == "roms/test_opcode.ch8"@,
            r.size_bytes == 0,
            !r.read_status,
    {
        proof {
            reveal_strlit("roms/test_opcode.ch8");
        }
        RomLoader { rom_path: "roms/test_opcode.ch8".to_owned(), size_bytes: 0, read_status: false }
    }

    /// Takes in a message of the input. An edit replaces the path; a load
    /// request changes nothing here, the load itself being the caller's.
    pub fn update(&mut self, msg: Message)
        ensures
            final(self).size_bytes == old(self).size_bytes,
            final(self).read_status == old(self).read_status,
            msg matches Message::RomPathChanged(p) ==> final(self).rom_path@ == p@,
            msg is LoadRom ==> final(self).rom_path@ == old(self).rom_path@,
    {
        match msg {
            Message::RomPathChanged(p) => self.rom_path = p,
            Message::LoadRom => {},
        }
    }

    /// Records the outcome of a load: a success keeps its size, a failure
    /// keeps the size of the last success.
    pub fn record_load(&mut self, result: &Result<RomLoadResult, CpuError>)
        ensures
            final(self).rom_path@ == old(self).rom_path@,
            result matches Ok(res) ==> final(self).size_bytes == res.bytes_read
                && final(self).read_status,
            result is Err ==> final(self).size_bytes == old(self).size_bytes
                && !final(self).read_status,
    {
        match result {
            Ok(res) => {
                self.size_bytes = res.bytes_read;
                self.read_status = true;
            },
            Err(_) => {
                self.read_status = false;
            },
        }
    }

    /// What to show about the last load.
    pub fn status(&self) -> (r: LoadStatus)
        ensures
            self.read_status ==> r == (LoadStatus::Loaded { bytes: self.size_bytes }),
            !self.read_status && self.size_bytes == 0 ==> r == LoadStatus::NotLoaded,
            !self.read_status && self.size_bytes != 0 ==> r == LoadStatus::Failed,
    {
        if self.read_status {
            LoadStatus::Loaded { bytes: self.size_bytes }
        } else if self.size_bytes == 0 {
            LoadStatus::NotLoaded
        } else {
            LoadStatus::Failed
        }
    }
}

} // verus!
