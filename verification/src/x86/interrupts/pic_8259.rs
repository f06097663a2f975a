use vstd::prelude::*;

verus! {

/// The vector of the first interrupt of the master controller.
pub const MASTER_INTERRUPT_OFFSET: u8 = 32;

/// The vector of the first interrupt of the slave controller.
pub const SLAVE_INTERRUPT_OFFSET: u8 = 40;

pub const MASTER_PIC_COMMAND_IO_ADDRESS: u16 = 0x20;

pub const MASTER_PIC_DATA_IO_ADDRESS: u16 = 0x21;

pub const SLAVE_PIC_COMMAND_IO_ADDRESS: u16 = 0xA0;

pub const SLAVE_PIC_DATA_IO_ADDRESS: u16 = 0xA1;

pub const END_OF_INTERRUPT_COMMAND: u8 = 0x20;

pub const INIT_COMMAND: u8 = 0x11;

pub const MODE_8086_COMMAND: u8 = 0x1;

/// Writing to this port takes as long as a controller needs between commands.
pub const IO_WAIT_WRITE_ADDRESS: u16 = 0x80;

/// The mask that lets only the first interrupt of the master through.
pub const DEFAULT_MASTER_MASK: u8 = 0xFE;

/// The mask that lets no interrupt of the slave through.
pub const DEFAULT_SLAVE_MASK: u8 = 0xFF;

/// One write of a byte to an I/O port.
#[derive(Debug, Clone, Copy, PartialEq, Eq, Structural)]
pub struct PortWrite {
    pub port: u16,
    pub value: u8,
}

/// One 8259 interrupt controller.
#[derive(Debug, Clone, Copy, PartialEq, Eq, Structural)]
pub struct Pic {
    pub irq_offset: u8,
    pub command_address: u16,
    pub data_address: u16,
}

impl Pic {
    /// The controller with its first vector and its two ports.
    pub fn new(irq_offset: u8, command_address: u16, data_address: u16) -> (pic: Self)
        ensures
            pic == (Pic { irq_offset, command_address, data_address }),
    {
        Self { irq_offset, command_address, data_address }
    }

    /// What tells this controller that the interrupt `interrupt_id` was
    /// served: a write of the end-of-interrupt command to its command port,
    /// for an interrupt from its first vector on; nothing for one below.
    pub fn end_of_interrupt(&self, interrupt_id: u8) -> (write: Option<PortWrite>)
        ensures
            write == if interrupt_id >= self.irq_offset {
                Some(PortWrite { port: self.command_address, value: END_OF_INTERRUPT_COMMAND })
            } else {
                None
            },
    {
        if self.irq_offset <= interrupt_id {
            Some(PortWrite { port: self.command_address, value: END_OF_INTERRUPT_COMMAND })
        } else {
            None
        }
    }

    /// The port from which the controller's mask is read.
    pub fn read_mask(&self) -> (port: u16)
        ensures
            port == self.data_address,
    {
        self.data_address
    }

    /// The write that sets the controller's mask.
    pub fn write_mask(&self, mask: u8) -> (write: PortWrite)
        ensures
            write == (PortWrite { port: self.data_address, value: mask }),
    {
        PortWrite { port: self.data_address, value: mask }
    }
}

/// The cascade of the two interrupt controllers.
#[derive(Debug, Clone, Copy, PartialEq, Eq, Structural)]
pub struct Pics {
    pub master: Pic,
    pub slave: Pic,
}

/// A write to the port that makes the processor wait.
pub open spec fn io_wait() -> PortWrite {
    PortWrite { port: IO_WAIT_WRITE_ADDRESS, value: 0 }
}

/// The writes that bring the cascade up and leave it with the masks
/// given: the init command to both controllers, each controller's first
/// vector, the line of the master on which the slave sits and the slave's
/// own number, the 8086 mode for both, each followed by a wait; then the
/// two masks.
pub open spec fn bring_up(pics: Pics, master_mask: u8, slave_mask: u8) -> Seq<PortWrite> {
    seq![
        PortWrite { port: pics.master.command_address, value: INIT_COMMAND },
        io_wait(),
        PortWrite { port: pics.slave.command_address, value: INIT_COMMAND },
        io_wait(),
        PortWrite { port: pics.master.data_address, value: pics.master.irq_offset },
        io_wait(),
        PortWrite { port: pics.slave.data_address, value: pics.slave.irq_offset },
        io_wait(),
        PortWrite { port: pics.master.data_address, value: 4 },
        io_wait(),
        PortWrite { port: pics.slave.data_address, value: 2 },
        io_wait(),
        PortWrite { port: pics.master.data_address, value: MODE_8086_COMMAND },
        io_wait(),
        PortWrite { port: pics.slave.data_address, value: MODE_8086_COMMAND },
        io_wait(),
        PortWrite { port: pics.master.data_address, value: master_mask },
        PortWrite { port: pics.slave.data_address, value: slave_mask },
    ]
}

/// What tells the cascade that the interrupt `interrupt_id` was served:
/// the end-of-interrupt command to the slave for an interrupt from the
/// slave's first vector on, then to the master for one from the master's
/// first vector on.
pub open spec fn end_of_interrupt_writes(pics: Pics, interrupt_id: u8) -> Seq<PortWrite> {
    (if interrupt_id >= pics.slave.irq_offset {
        seq![PortWrite { port: pics.slave.command_address, value: END_OF_INTERRUPT_COMMAND }]
    } else {
        Seq::<PortWrite>::empty()
    }) + (if interrupt_id >= pics.master.irq_offset {
        seq![PortWrite { port: pics.master.command_address, value: END_OF_INTERRUPT_COMMAND }]
    } else {
        Seq::<PortWrite>::empty()
    })
}

impl Pics {
    /// The cascade at the usual ports, with the first vectors given.
    pub fn new(master_offset: u8, slave_offset: u8) -> (pics: Self)
        ensures
            pics == (Pics {
                master: Pic {
                    irq_offset: master_offset,
                    command_address: MASTER_PIC_COMMAND_IO_ADDRESS,
                    data_address: MASTER_PIC_DATA_IO_ADDRESS,
                },
                slave: Pic {
                    irq_offset: slave_offset,
                    command_address: SLAVE_PIC_COMMAND_IO_ADDRESS,
                    data_address: SLAVE_PIC_DATA_IO_ADDRESS,
                },
            }),
    {
        Self {
            master: Pic::new(
                master_offset,
                MASTER_PIC_COMMAND_IO_ADDRESS,
                MASTER_PIC_DATA_IO_ADDRESS,
            ),
            slave: Pic::new(slave_offset, SLAVE_PIC_COMMAND_IO_ADDRESS, SLAVE_PIC_DATA_IO_ADDRESS),
        }
    }

    /// The writes that bring the cascade up, in order. The two masks are
    /// what the controllers are left with: what was read from them before,
    /// to keep them, or new ones.
    pub fn init(&self, master_mask: u8, slave_mask: u8) -> (writes: Vec<PortWrite>)
        ensures
            writes@ == bring_up(*self, master_mask, slave_mask),
    {
        let io_wait = PortWrite { port: IO_WAIT_WRITE_ADDRESS, value: 0 };
        let mut writes: Vec<PortWrite> = Vec::new();

        writes.push(PortWrite { port: self.master.command_address, value: INIT_COMMAND });
        writes.push(io_wait);

        writes.push(PortWrite { port: self.slave.command_address, value: INIT_COMMAND });
        writes.push(io_wait);

        writes.push(PortWrite { port: self.master.data_address, value: self.master.irq_offset });
        writes.push(io_wait);

        writes.push(PortWrite { port: self.slave.data_address, value: self.slave.irq_offset });
        writes.push(io_wait);

        // the slave sits on line 2 of the master
        writes.push(PortWrite { port: self.master.data_address, value: 4 });
        writes.push(io_wait);

        // the slave is told its own number
        writes.push(PortWrite { port: self.slave.data_address, value: 2 });
        writes.push(io_wait);

        writes.push(PortWrite { port: self.master.data_address, value: MODE_8086_COMMAND });
        writes.push(io_wait);

        writes.push(PortWrite { port: self.slave.data_address, value: MODE_8086_COMMAND });
        writes.push(io_wait);

        writes.push(self.master.write_mask(master_mask));
        writes.push(self.slave.write_mask(slave_mask));
        assert(writes@ =~= bring_up(*self, master_mask, slave_mask));
        writes
    }

    /// The writes that tell the cascade that the interrupt `interrupt_id`
    /// was served, in order. They are the last thing that a handler does.
    pub fn notify_end_of_interrupt(&self, interrupt_id: u8) -> (writes: Vec<PortWrite>)
        ensures
            writes@ == end_of_interrupt_writes(*self, interrupt_id),
    {
        let mut writes: Vec<PortWrite> = Vec::new();
        match self.slave.end_of_interrupt(interrupt_id) {
            Some(write) => {
                writes.push(write);
            },
            None => {},
        }
        match self.master.end_of_interrupt(interrupt_id) {
            Some(write) => {
                writes.push(write);
            },
            None => {},
        }
        assert(writes@ =~= end_of_interrupt_writes(*self, interrupt_id));
        writes
    }
}

} // verus!
