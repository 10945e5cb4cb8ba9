use vstd::prelude::*;
use crate::cartridge::cartridge::{Cartridge, CartridgeView, cart_slot, slot_cart, slot_wf};
use crate::errors::{InvalidPPURegisterReadError, InvalidPPURegisterWriteError};
use super::bus::{PPUBus, PPUBusView, ppu_bus_read, ppu_bus_written, ppu_bus_cart_written, with_address_part};
use super::enums::{ControlFlag, MaskFlag, StatusFlag, VRAMAddressMask, control_bit, mask_bit, status_bit};
use super::oam::{OAM, OamView, sprite_byte};

verus! {

/// The PPU registers as the CPU sees them, with the latches behind them.
#[derive(Debug, Clone, Copy, PartialEq, Eq, Structural)]
pub struct Registers {
    pub ctrl: u8,
    pub mask: u8,
    pub status: u8,
    pub oam_addr: u8,
    pub oam_data: u8,
    pub scroll: u8,
    pub addr: u8,
    pub data: u8,
    pub oam_dma: u8,
    /// The value last written or read on the PPU's data lines; unused
    /// register bits read from it.
    pub decay: u8,
    pub decay_timer: u64,
    pub data_buffer: u8,
    /// Whether the next write to $2005 / $2006 is the second one.
    pub w: bool,
    pub fine_x: u8,
    /// An NMI must be sent to the CPU.
    pub emit_nmi: bool,
    pub clocks_before_emiting: u8,
    /// $2002 was read: the vertical blank flag is cleared at the next PPU
    /// clock (and not set, if that clock would set it).
    pub clear_vbl: bool,
    /// A write to $4014 asks for an OAM DMA.
    pub perform_dma: bool,
}

/// The value of a control flag: one bit, or the two nametable bits.
pub open spec fn control_flag(ctrl: u8, f: ControlFlag) -> u8 {
    if f == ControlFlag::NametableAddress {
        ctrl & 0x03
    } else if ctrl & control_bit(f) == control_bit(f) {
        1
    } else {
        0
    }
}

/// The step of the VRAM address after a $2007 access: 1 or 32.
pub open spec fn vram_increment(ctrl: u8) -> u16 {
    if control_flag(ctrl, ControlFlag::VRAMAddressIncrement) == 0 { 1 } else { 32 }
}

pub open spec fn wrapping_add_u16(a: u16, b: u16) -> u16 {
    if a + b > 0xFFFF { (a + b - 0x10000) as u16 } else { (a + b) as u16 }
}

/// The addresses of PPU registers that accept writes.
pub open spec fn ppu_register_writable(address: u16) -> bool {
    (0x2000 <= address && address <= 0x2007) || address == 0x4014
}

/// The registers and the PPU bus after the CPU writes `value` to the PPU
/// register at `address` (before the data latch update, see
/// `ppu_register_written`).
pub open spec fn ppu_register_effect(r: Registers, b: PPUBusView, c: CartridgeView, address: u16, value: u8) -> (Registers, PPUBusView) {
    if address == 0x2000 {
        let r1 = Registers { ctrl: value, ..r };
        let r2 = if value & 0x80 == 0 { Registers { clocks_before_emiting: 0, emit_nmi: false, ..r1 } } else { r1 };
        let r3 = if r2.status & 0x80 == 0x80 && value & 0x80 == 0x80 && r.ctrl & 0x80 == 0
            && r2.clocks_before_emiting == 0 {
            Registers { emit_nmi: true, ..r2 }
        } else {
            r2
        };
        (r3, PPUBusView {
            tmp_vram_address: with_address_part(b.tmp_vram_address, VRAMAddressMask::NametableSelect, (value & 0x03) as u16),
            ..b
        })
    } else if address == 0x2001 {
        (Registers { mask: value, ..r }, b)
    } else if address == 0x2003 {
        (Registers { oam_addr: value, ..r }, b)
    } else if address == 0x2004 {
        (Registers { oam_data: value, oam_addr: if r.oam_addr != 255 { (r.oam_addr + 1) as u8 } else { 0 }, ..r }, b)
    } else if address == 0x2005 {
        if r.w {
            let t1 = with_address_part(b.tmp_vram_address, VRAMAddressMask::FineY, (value & 0x07) as u16);
            let t2 = with_address_part(t1, VRAMAddressMask::CoarseYScroll, ((value & 0xF8) as u16) >> 3u16);
            (Registers { scroll: value, w: false, ..r }, PPUBusView { tmp_vram_address: t2, ..b })
        } else {
            let t1 = with_address_part(b.tmp_vram_address, VRAMAddressMask::CoarseXScroll, ((value & 0xF8) as u16) >> 3u16);
            (Registers { scroll: value, fine_x: value & 0x07, w: true, ..r }, PPUBusView { tmp_vram_address: t1, ..b })
        }
    } else if address == 0x2006 {
        if r.w {
            let t = with_address_part(b.tmp_vram_address, VRAMAddressMask::SW2006, value as u16);
            (Registers { addr: value, w: false, ..r }, PPUBusView { tmp_vram_address: t, vram_address: t, ..b })
        } else {
            let t = with_address_part(b.tmp_vram_address, VRAMAddressMask::FW2006, (value & 0x3F) as u16) & 0x3FFF;
            (Registers { addr: value, w: true, ..r }, PPUBusView { tmp_vram_address: t, ..b })
        }
    } else if address == 0x2007 {
        let b1 = ppu_bus_written(b, c, b.vram_address & 0x3FFF, value);
        (Registers { data: value, ..r }, PPUBusView {
            vram_address: wrapping_add_u16(b.vram_address, vram_increment(r.ctrl)),
            ..b1
        })
    } else if address == 0x4014 {
        (Registers { oam_dma: value, perform_dma: true, ..r }, b)
    } else {
        (r, b)
    }
}

/// The registers and the PPU bus after a write to a PPU register: an
/// accepted write also latches the value on the data lines.
pub open spec fn ppu_register_written(r: Registers, b: PPUBusView, c: CartridgeView, address: u16, value: u8) -> (Registers, PPUBusView) {
    let (r1, b1) = ppu_register_effect(r, b, c, address, value);
    if ppu_register_writable(address) { (Registers { decay: value, decay_timer: 0, ..r1 }, b1) } else { (r1, b1) }
}

/// What a read of the PPU bus gives the registers: a failed read gives 0.
pub open spec fn bus_value(b: PPUBusView, c: CartridgeView, address: u16) -> u8 {
    match ppu_bus_read(b, c, address) {
        Ok(v) => v,
        Err(_) => 0,
    }
}

/// The registers and PPU bus after the CPU reads the PPU register at
/// `address`, and what it reads.
pub open spec fn ppu_register_read(r: Registers, b: PPUBusView, o: OamView, c: CartridgeView, address: u16)
    -> (Registers, PPUBusView, Result<u8, InvalidPPURegisterReadError>)
{
    if address == 0x2000 || address == 0x2001 || address == 0x2003 || address == 0x2005 || address == 0x2006 {
        (r, b, Ok(r.decay))
    } else if address == 0x2002 {
        let v = (r.status & 0xE0) | (r.decay & 0x1F);
        (Registers { decay: v, clear_vbl: true, emit_nmi: false, w: false, ..r }, b, Ok(v))
    } else if address == 0x2004 {
        let s = o.primary[(r.oam_addr / 4) as int];
        let v = if r.oam_addr % 4 == 2 { s.attribute & 0xE3 } else { sprite_byte(s, r.oam_addr) };
        (Registers { decay: v, ..r }, b, Ok(v))
    } else if address == 0x2007 {
        let fetched = bus_value(b, c, b.vram_address);
        let (v, buffer) = if b.vram_address >= 0x3F00 {
            ((r.decay & 0xC0) | (fetched & 0x3F), bus_value(b, c, b.vram_address & 0x2FFF))
        } else {
            (r.data_buffer, fetched)
        };
        (
            Registers { data_buffer: buffer, decay: v, ..r },
            PPUBusView { vram_address: wrapping_add_u16(b.vram_address, vram_increment(r.ctrl)), ..b },
            Ok(v),
        )
    } else {
        (r, b, Err(InvalidPPURegisterReadError(address)))
    }
}

/// What a side-effect-free read of a PPU register gives.
pub open spec fn ppu_register_peek(r: Registers, address: u16) -> Result<u8, InvalidPPURegisterReadError> {
    if address == 0x2000 {
        Ok(r.ctrl)
    } else if address == 0x2001 {
        Ok(r.mask)
    } else if address == 0x2002 {
        Ok(r.status)
    } else if address == 0x2003 {
        Ok(r.oam_addr)
    } else if address == 0x2004 {
        Ok(r.oam_data)
    } else if address == 0x2005 {
        Ok(r.scroll)
    } else if address == 0x2006 {
        Ok(r.addr)
    } else if address == 0x2007 {
        Ok(r.data_buffer)
    } else if address == 0x4014 {
        Ok(r.oam_dma)
    } else {
        Err(InvalidPPURegisterReadError(address))
    }
}

impl Registers {
    pub open spec fn new_spec() -> Registers {
        Registers {
            ctrl: 0,
            mask: 0,
            status: 0,
            oam_addr: 0,
            oam_data: 0,
            scroll: 0,
            addr: 0,
            data: 0,
            oam_dma: 0,
            decay: 0,
            decay_timer: 0,
            data_buffer: 0,
            w: false,
            fine_x: 0,
            emit_nmi: false,
            clocks_before_emiting: 0,
            clear_vbl: false,
            perform_dma: false,
        }
    }

    pub fn new() -> (r: Self)
        ensures
            r == Registers::new_spec(),
    {
        Registers {
            ctrl: 0,
            mask: 0,
            status: 0,
            oam_addr: 0,
            oam_data: 0,
            scroll: 0,
            addr: 0,
            data: 0,
            oam_dma: 0,
            decay: 0,
            decay_timer: 0,
            data_buffer: 0,
            w: false,
            fine_x: 0,
            emit_nmi: false,
            clocks_before_emiting: 0,
            clear_vbl: false,
            perform_dma: false,
        }
    }

    /// Writes `value` to the PPU register at `address` ($2000-$2007, $4014);
    /// other addresses are refused. $2004 writes the OAM and $2007 the PPU
    /// bus (pattern table writes reach the cartridge).
    pub fn write_register(
        &mut self,
        ppu_bus: &mut PPUBus,
        oam: &mut OAM,
        cart: &mut Option<Cartridge>,
        address: u16,
        value: u8,
    ) -> (r: Result<(), InvalidPPURegisterWriteError>)
        requires
            old(ppu_bus).wf(),
            old(oam).wf(),
            slot_wf(*old(cart)),
            address == 0x2007 ==> (*old(cart)) is Some,
        ensures
            final(ppu_bus).wf(),
            final(oam).wf(),
            slot_wf(*final(cart)),
            (*final(self), final(ppu_bus)@) == ppu_register_written(*old(self), old(ppu_bus)@,
                slot_cart(cart_slot(*old(cart))), address, value),
            cart_slot(*final(cart)) == (if address == 0x2007 {
                Some(ppu_bus_cart_written(slot_cart(cart_slot(*old(cart))), old(ppu_bus)@.vram_address & 0x3FFF, value))
            } else {
                cart_slot(*old(cart))
            }),
            address == 0x2004 ==> final(oam)@.primary == old(oam)@.primary.update(
                (old(self).oam_addr / 4) as int,
                super::oam::sprite_with_byte(old(oam)@.primary[(old(self).oam_addr / 4) as int], old(self).oam_addr,
                    if old(self).oam_addr % 4 == 2 { value & 0xE3 } else { value }),
            ) && final(oam)@.secondary == old(oam)@.secondary,
            address != 0x2004 ==> final(oam)@ == old(oam)@,
            ppu_register_writable(address) <==> r is Ok,
            r is Err ==> r == Err::<(), InvalidPPURegisterWriteError>(InvalidPPURegisterWriteError(address)),
    {
        if address == 0x2000 {
            let is_previous_nmi_flag_set = self.ctrl & 0x80 != 0;
            self.ctrl = value;
            if value & 0x80 == 0 {
                self.clocks_before_emiting = 0;
                self.emit_nmi = false;
            }
            if self.status & 0x80 == 0x80 && value & 0x80 == 0x80 && !is_previous_nmi_flag_set
                && self.clocks_before_emiting == 0 {
                self.emit_nmi = true;
            }
            ppu_bus.tmp_vram_address.set_address_part(VRAMAddressMask::NametableSelect, (value & 0x03) as u16);
        } else if address == 0x2001 {
            self.mask = value;
        } else if address == 0x2002 {
            // The status register is read-only: the write only reaches the latch.
        } else if address == 0x2003 {
            self.oam_addr = value;
        } else if address == 0x2004 {
            self.oam_data = value;
            oam.write_primary(self.oam_addr, value);
            if self.oam_addr != 255 {
                self.oam_addr = self.oam_addr + 1;
            } else {
                self.oam_addr = 0;
            }
        } else if address == 0x2005 {
            self.scroll = value;
            if self.w {
                ppu_bus.tmp_vram_address.set_address_part(VRAMAddressMask::FineY, (value & 0x07) as u16);
                ppu_bus.tmp_vram_address.set_address_part(VRAMAddressMask::CoarseYScroll, ((value & 0xF8) as u16) >> 3u16);
                self.w = false;
            } else {
                ppu_bus.tmp_vram_address.set_address_part(VRAMAddressMask::CoarseXScroll, ((value & 0xF8) as u16) >> 3u16);
                self.fine_x = value & 0x07;
                self.w = true;
            }
        } else if address == 0x2006 {
            self.addr = value;
            if self.w {
                ppu_bus.tmp_vram_address.set_address_part(VRAMAddressMask::SW2006, value as u16);
                ppu_bus.vram_address.address = ppu_bus.tmp_vram_address.address;
                self.w = false;
            } else {
                ppu_bus.tmp_vram_address.set_address_part(VRAMAddressMask::FW2006, (value & 0x3F) as u16);
                ppu_bus.tmp_vram_address.address = ppu_bus.tmp_vram_address.address & 0x3FFF;
                self.w = true;
            }
        } else if address == 0x2007 {
            self.data = value;
            let target = ppu_bus.vram_address.address & 0x3FFF;
            let taken = cart.take();
            if let Some(mut c) = taken {
                let _ = ppu_bus.write(&mut c, target, value);
                *cart = Some(c);
            }
            let inc: u16 = if self.get_control_flag(ControlFlag::VRAMAddressIncrement) == 0 { 1 } else { 32 };
            ppu_bus.vram_address.address = ppu_bus.vram_address.address.wrapping_add(inc);
        } else if address == 0x4014 {
            self.oam_dma = value;
            self.perform_dma = true;
        } else {
            return Err(InvalidPPURegisterWriteError(address));
        }
        self.decay = value;
        self.decay_timer = 0;
        Ok(())
    }

    /// Reads the PPU register at `address`. Write-only registers give the
    /// data latch; $2002 gives the status (low bits from the latch) and
    /// resets the write toggle; $2007 gives the buffered byte and refills the
    /// buffer (palette reads are not delayed).
    pub fn read_register(
        &mut self,
        ppu_bus: &mut PPUBus,
        oam: &OAM,
        cart: &Option<Cartridge>,
        address: u16,
    ) -> (r: Result<u8, InvalidPPURegisterReadError>)
        requires
            old(ppu_bus).wf(),
            oam.wf(),
            slot_wf(*cart),
            address == 0x2007 ==> (*cart) is Some,
        ensures
            final(ppu_bus).wf(),
            (*final(self), final(ppu_bus)@, r) == ppu_register_read(*old(self), old(ppu_bus)@, oam@,
                slot_cart(cart_slot(*cart)), address),
    {
        if address == 0x2000 || address == 0x2001 || address == 0x2003 || address == 0x2005 || address == 0x2006 {
            Ok(self.decay)
        } else if address == 0x2002 {
            let value = (self.status & 0xE0) | (self.decay & 0x1F);
            self.decay = value;
            self.clear_vbl = true;
            self.emit_nmi = false;
            self.w = false;
            Ok(value)
        } else if address == 0x2004 {
            let value = oam.read_primary(self.oam_addr);
            self.decay = value;
            Ok(value)
        } else if address == 0x2007 {
            let cart = match cart {
                Some(c) => c,
                None => { return Ok(0); },
            };
            let vram = ppu_bus.vram_address.address;
            let fetched = match ppu_bus.read(cart, vram) {
                Ok(v) => v,
                Err(_) => 0,
            };
            let mut value = self.data_buffer;
            self.data_buffer = fetched;
            if vram >= 0x3F00 {
                value = (self.decay & 0xC0) | (fetched & 0x3F);
                self.data_buffer = match ppu_bus.read(cart, vram & 0x2FFF) {
                    Ok(v) => v,
                    Err(_) => 0,
                };
            }
            self.decay = value;
            let inc: u16 = if self.get_control_flag(ControlFlag::VRAMAddressIncrement) == 0 { 1 } else { 32 };
            ppu_bus.vram_address.address = ppu_bus.vram_address.address.wrapping_add(inc);
            Ok(value)
        } else {
            Err(InvalidPPURegisterReadError(address))
        }
    }

    /// The value that a read of register `address` would give, without
    /// doing the read.
    pub fn read_value(&self, ppu_bus: &PPUBus, oam: &OAM, cart: &Option<Cartridge>, address: u16)
        -> (r: Result<u8, InvalidPPURegisterReadError>)
        requires
            ppu_bus.wf(),
            oam.wf(),
            slot_wf(*cart),
            address == 0x2007 ==> (*cart) is Some,
        ensures
            r == ppu_register_read(*self, ppu_bus@, oam@, slot_cart(cart_slot(*cart)), address).2,
    {
        if address == 0x2000 || address == 0x2001 || address == 0x2003 || address == 0x2005 || address == 0x2006 {
            Ok(self.decay)
        } else if address == 0x2002 {
            Ok((self.status & 0xE0) | (self.decay & 0x1F))
        } else if address == 0x2004 {
            Ok(oam.read_primary(self.oam_addr))
        } else if address == 0x2007 {
            let cart = match cart {
                Some(c) => c,
                None => { return Ok(0); },
            };
            let vram = ppu_bus.vram_address.address;
            if vram >= 0x3F00 {
                let fetched = match ppu_bus.read(cart, vram) {
                    Ok(v) => v,
                    Err(_) => 0,
                };
                Ok((self.decay & 0xC0) | (fetched & 0x3F))
            } else {
                Ok(self.data_buffer)
            }
        } else {
            Err(InvalidPPURegisterReadError(address))
        }
    }

    /// Sets or clears a flag of the status register.
    pub fn set_status_flag(&mut self, flag: StatusFlag, value: bool)
        ensures
            *final(self) == (Registers {
                status: if value { old(self).status | status_bit(flag) } else { old(self).status & !status_bit(flag) },
                ..*old(self)
            }),
    {
        if value {
            self.status = self.status | flag.bit();
        } else {
            self.status = self.status & !flag.bit();
        }
    }

    pub fn get_status_flag(&self, flag: StatusFlag) -> (b: bool)
        ensures
            b == (self.status & status_bit(flag) == status_bit(flag)),
    {
        self.status & flag.bit() == flag.bit()
    }

    /// The value of a control flag: 0 or 1, or the two nametable bits.
    pub fn get_control_flag(&self, flag: ControlFlag) -> (v: u8)
        ensures
            v == control_flag(self.ctrl, flag),
    {
        if flag == ControlFlag::NametableAddress {
            self.ctrl & 0x03
        } else if self.ctrl & flag.bit() == flag.bit() {
            1
        } else {
            0
        }
    }

    pub fn get_mask_flag(&self, flag: MaskFlag) -> (b: bool)
        ensures
            b == (self.mask & mask_bit(flag) == mask_bit(flag)),
    {
        self.mask & flag.bit() == flag.bit()
    }

    /// Reads a register without side effects.
    pub fn read_only_register(&self, address: u16) -> (r: Result<u8, InvalidPPURegisterReadError>)
        ensures
            r == ppu_register_peek(*self, address),
    {
        if address == 0x2000 {
            Ok(self.ctrl)
        } else if address == 0x2001 {
            Ok(self.mask)
        } else if address == 0x2002 {
            Ok(self.status)
        } else if address == 0x2003 {
            Ok(self.oam_addr)
        } else if address == 0x2004 {
            Ok(self.oam_data)
        } else if address == 0x2005 {
            Ok(self.scroll)
        } else if address == 0x2006 {
            Ok(self.addr)
        } else if address == 0x2007 {
            Ok(self.data_buffer)
        } else if address == 0x4014 {
            Ok(self.oam_dma)
        } else {
            Err(InvalidPPURegisterReadError(address))
        }
    }
}

} // verus!
