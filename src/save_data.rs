//! The client save record: its fixed blocks, its time events, and the
//! checked reading and writing of its binary form.
//!
//! Every number, the time-event count included, is stored little-endian, and
//! fields follow each other with no padding. Reserved fields are kept as they
//! were read, so that writing a record that was read gives the input back.
#![allow(non_snake_case)]

use crate::codec;
use crate::codec::{append_all, put_all, ByteReader, Field};
use vstd::prelude::*;

verus! {

/// A flag stored as one byte. Any nonzero byte reads as `true`; the byte
/// itself is kept, so that a record is written back exactly as it was read.
#[derive(Debug, Clone, Copy, Default)]
pub struct Bool(pub u8);

impl From<bool> for Bool {
    fn from(value: bool) -> (r: Self) {
        Bool(if value { 1 } else { 0 })
    }
}

impl vstd::std_specs::convert::FromSpecImpl<bool> for Bool {
    open spec fn obeys_from_spec() -> bool {
        true
    }

    open spec fn from_spec(value: bool) -> Self {
        Bool(if value { 1 } else { 0 })
    }
}

impl From<Bool> for bool {
    fn from(value: Bool) -> (r: Self) {
        value.0 != 0
    }
}

impl vstd::std_specs::convert::FromSpecImpl<Bool> for bool {
    open spec fn obeys_from_spec() -> bool {
        true
    }

    open spec fn from_spec(value: Bool) -> Self {
        value.0 != 0
    }
}

impl Field for Bool {
    open spec fn width() -> nat {
        1
    }

    open spec fn append_to(self, acc: Seq<u8>) -> Seq<u8> {
        acc.push(self.0)
    }

    proof fn lemma_extends(self, acc: Seq<u8>) {
    }

    proof fn lemma_injective(self, other: Self, acc: Seq<u8>, acc2: Seq<u8>) {
        codec::lemma_push_injective(acc, acc2, self.0, other.0);
    }

    open spec fn is_blank(self) -> bool {
        self.0 == 0
    }

    fn blank() -> Self {
        Bool(0)
    }

    fn put(&self, out: &mut Vec<u8>) {
        out.push(self.0);
    }

    fn take(src: &mut ByteReader) -> (r: Self) {
        Bool(src.take_byte())
    }
}

/// One entry of a critter's bag: an item prototype, a count range and a slot.
#[derive(Debug, Clone, Copy, Default)]
pub struct NpcBagItem {
    pub ItemPid: u32,
    pub MinCnt: u32,
    pub MaxCnt: u32,
    pub ItemSlot: u32,
}

impl Field for NpcBagItem {
    open spec fn width() -> nat {
        16
    }

    open spec fn append_to(self, acc: Seq<u8>) -> Seq<u8> {
        let acc = self.ItemPid.append_to(acc);
        let acc = self.MinCnt.append_to(acc);
        let acc = self.MaxCnt.append_to(acc);
        let acc = self.ItemSlot.append_to(acc);
        acc
    }

    proof fn lemma_extends(self, acc: Seq<u8>) {
        self.ItemPid.lemma_extends(acc);
        let a0 = self.ItemPid.append_to(acc);
        self.MinCnt.lemma_extends(a0);
        let a1 = self.MinCnt.append_to(a0);
        self.MaxCnt.lemma_extends(a1);
        let a2 = self.MaxCnt.append_to(a1);
        self.ItemSlot.lemma_extends(a2);
    }

    proof fn lemma_injective(self, other: Self, acc: Seq<u8>, acc2: Seq<u8>) {
        // both layouts reach each field after equally many bytes
        self.ItemPid.lemma_extends(acc);
        other.ItemPid.lemma_extends(acc2);
        let a0 = self.ItemPid.append_to(acc);
        let b0 = other.ItemPid.append_to(acc2);
        self.MinCnt.lemma_extends(a0);
        other.MinCnt.lemma_extends(b0);
        let a1 = self.MinCnt.append_to(a0);
        let b1 = other.MinCnt.append_to(b0);
        self.MaxCnt.lemma_extends(a1);
        other.MaxCnt.lemma_extends(b1);
        let a2 = self.MaxCnt.append_to(a1);
        let b2 = other.MaxCnt.append_to(b1);
        self.ItemSlot.lemma_extends(a2);
        other.ItemSlot.lemma_extends(b2);
        // so the fields can be taken off from the last one
        self.ItemSlot.lemma_injective(other.ItemSlot, a2, b2);
        self.MaxCnt.lemma_injective(other.MaxCnt, a1, b1);
        self.MinCnt.lemma_injective(other.MinCnt, a0, b0);
        self.ItemPid.lemma_injective(other.ItemPid, acc, acc2);
    }

    open spec fn is_blank(self) -> bool {
        &&& self.ItemPid.is_blank()
        &&& self.MinCnt.is_blank()
        &&& self.MaxCnt.is_blank()
        &&& self.ItemSlot.is_blank()
    }

    fn blank() -> Self {
        NpcBagItem {
            ItemPid: u32::blank(),
            MinCnt: u32::blank(),
            MaxCnt: u32::blank(),
            ItemSlot: u32::blank(),
        }
    }

    fn put(&self, out: &mut Vec<u8>) {
        self.ItemPid.put(out);
        self.MinCnt.put(out);
        self.MaxCnt.put(out);
        self.ItemSlot.put(out);
    }

    fn take(src: &mut ByteReader) -> (r: Self) {
        let ItemPid = u32::take(src);
        let MinCnt = u32::take(src);
        let MaxCnt = u32::take(src);
        let ItemSlot = u32::take(src);
        NpcBagItem {
            ItemPid,
            MinCnt,
            MaxCnt,
            ItemSlot,
        }
    }
}


/// A scheduled callback: function number, rate, next firing time and identifier.
#[derive(Debug, Clone, Copy)]
pub struct CrTimeEvent {
    pub FuncNum: u32,
    pub Rate: u32,
    pub NextTime: u32,
    pub Identifier: i32,
}

impl Field for CrTimeEvent {
    open spec fn width() -> nat {
        16
    }

    open spec fn append_to(self, acc: Seq<u8>) -> Seq<u8> {
        let acc = self.FuncNum.append_to(acc);
        let acc = self.Rate.append_to(acc);
        let acc = self.NextTime.append_to(acc);
        let acc = self.Identifier.append_to(acc);
        acc
    }

    proof fn lemma_extends(self, acc: Seq<u8>) {
        self.FuncNum.lemma_extends(acc);
        let a0 = self.FuncNum.append_to(acc);
        self.Rate.lemma_extends(a0);
        let a1 = self.Rate.append_to(a0);
        self.NextTime.lemma_extends(a1);
        let a2 = self.NextTime.append_to(a1);
        self.Identifier.lemma_extends(a2);
    }

    proof fn lemma_injective(self, other: Self, acc: Seq<u8>, acc2: Seq<u8>) {
        // both layouts reach each field after equally many bytes
        self.FuncNum.lemma_extends(acc);
        other.FuncNum.lemma_extends(acc2);
        let a0 = self.FuncNum.append_to(acc);
        let b0 = other.FuncNum.append_to(acc2);
        self.Rate.lemma_extends(a0);
        other.Rate.lemma_extends(b0);
        let a1 = self.Rate.append_to(a0);
        let b1 = other.Rate.append_to(b0);
        self.NextTime.lemma_extends(a1);
        other.NextTime.lemma_extends(b1);
        let a2 = self.NextTime.append_to(a1);
        let b2 = other.NextTime.append_to(b1);
        self.Identifier.lemma_extends(a2);
        other.Identifier.lemma_extends(b2);
        // so the fields can be taken off from the last one
        self.Identifier.lemma_injective(other.Identifier, a2, b2);
        self.NextTime.lemma_injective(other.NextTime, a1, b1);
        self.Rate.lemma_injective(other.Rate, a0, b0);
        self.FuncNum.lemma_injective(other.FuncNum, acc, acc2);
    }

    open spec fn is_blank(self) -> bool {
        &&& self.FuncNum.is_blank()
        &&& self.Rate.is_blank()
        &&& self.NextTime.is_blank()
        &&& self.Identifier.is_blank()
    }

    fn blank() -> Self {
        CrTimeEvent {
            FuncNum: u32::blank(),
            Rate: u32::blank(),
            NextTime: u32::blank(),
            Identifier: i32::blank(),
        }
    }

    fn put(&self, out: &mut Vec<u8>) {
        self.FuncNum.put(out);
        self.Rate.put(out);
        self.NextTime.put(out);
        self.Identifier.put(out);
    }

    fn take(src: &mut ByteReader) -> (r: Self) {
        let FuncNum = u32::take(src);
        let Rate = u32::take(src);
        let NextTime = u32::take(src);
        let Identifier = i32::take(src);
        CrTimeEvent {
            FuncNum,
            Rate,
            NextTime,
            Identifier,
        }
    }
}


/// The primary block of a critter record.
#[derive(Debug, Clone, Copy)]
pub struct CritData {
    pub Id: u32,
    pub HexX: u16,
    pub HexY: u16,
    pub WorldX: u16,
    pub WorldY: u16,
    pub BaseType: u32,
    pub Dir: u8,
    pub Cond: u8,
    pub ReservedCE: u8,
    pub Reserved0: i8,
    pub ScriptId: u32,
    pub ShowCritterDist1: u32,
    pub ShowCritterDist2: u32,
    pub ShowCritterDist3: u32,
    pub Reserved00: u16,
    pub Multihex: i16,
    pub GlobalGroupUid: u32,
    pub LastHexX: u16,
    pub LastHexY: u16,
    pub Reserved1: [u32; 4],
    pub MapId: u32,
    pub MapPid: u16,
    pub Reserved2: u16,
    pub Params: [i32; 1000],
    pub Anim1Life: u32,
    pub Anim1Knockout: u32,
    pub Anim1Dead: u32,
    pub Anim2Life: u32,
    pub Anim2Knockout: u32,
    pub Anim2Dead: u32,
    pub Anim2KnockoutEnd: u32,
    pub Reserved3: [u32; 3],
    pub Lexems: [i8; 128],
    pub Reserved4: [u32; 8],
    pub ClientToDelete: Bool,
    pub Reserved5: u8,
    pub Reserved6: u16,
    pub Temp: u32,
    pub Reserved8: u16,
    pub HoloInfoCount: u16,
    pub HoloInfo: [u32; 250],
    pub Reserved9: [u32; 10],
    pub Scores: [i32; 50],
    pub UserData: [u8; 400],
    pub HomeMap: u32,
    pub HomeX: u16,
    pub HomeY: u16,
    pub HomeOri: u8,
    pub Reserved11: u8,
    pub ProtoId: u16,
    pub Reserved12: u32,
    pub Reserved13: u32,
    pub Reserved14: u32,
    pub Reserved15: u32,
    pub IsDataExt: Bool,
    pub Reserved16: u8,
    pub Reserved17: u16,
    pub Reserved18: [u32; 8],
    pub FavoriteItemPid: [u16; 4],
    pub Reserved19: [u32; 10],
    pub EnemyStackCount: u32,
    pub EnemyStack: [u32; 30],
    pub Reserved20: [u32; 5],
    pub BagCurrentSet: [u8; 20],
    pub BagRefreshTime: i16,
    pub Reserved21: u8,
    pub BagSize: u8,
    pub Bag: [NpcBagItem; 50],
    pub Reserved22: [u32; 100],
}

impl Field for CritData {
    open spec fn width() -> nat {
        7404
    }

    open spec fn append_to(self, acc: Seq<u8>) -> Seq<u8> {
        let acc = self.Id.append_to(acc);
        let acc = self.HexX.append_to(acc);
        let acc = self.HexY.append_to(acc);
        let acc = self.WorldX.append_to(acc);
        let acc = self.WorldY.append_to(acc);
        let acc = self.BaseType.append_to(acc);
        let acc = self.Dir.append_to(acc);
        let acc = self.Cond.append_to(acc);
        let acc = self.ReservedCE.append_to(acc);
        let acc = self.Reserved0.append_to(acc);
        let acc = self.ScriptId.append_to(acc);
        let acc = self.ShowCritterDist1.append_to(acc);
        let acc = self.ShowCritterDist2.append_to(acc);
        let acc = self.ShowCritterDist3.append_to(acc);
        let acc = self.Reserved00.append_to(acc);
        let acc = self.Multihex.append_to(acc);
        let acc = self.GlobalGroupUid.append_to(acc);
        let acc = self.LastHexX.append_to(acc);
        let acc = self.LastHexY.append_to(acc);
        let acc = self.Reserved1.append_to(acc);
        let acc = self.MapId.append_to(acc);
        let acc = self.MapPid.append_to(acc);
        let acc = self.Reserved2.append_to(acc);
        let acc = self.Params.append_to(acc);
        let acc = self.Anim1Life.append_to(acc);
        let acc = self.Anim1Knockout.append_to(acc);
        let acc = self.Anim1Dead.append_to(acc);
        let acc = self.Anim2Life.append_to(acc);
        let acc = self.Anim2Knockout.append_to(acc);
        let acc = self.Anim2Dead.append_to(acc);
        let acc = self.Anim2KnockoutEnd.append_to(acc);
        let acc = self.Reserved3.append_to(acc);
        let acc = self.Lexems.append_to(acc);
        let acc = self.Reserved4.append_to(acc);
        let acc = self.ClientToDelete.append_to(acc);
        let acc = self.Reserved5.append_to(acc);
        let acc = self.Reserved6.append_to(acc);
        let acc = self.Temp.append_to(acc);
        let acc = self.Reserved8.append_to(acc);
        let acc = self.HoloInfoCount.append_to(acc);
        let acc = self.HoloInfo.append_to(acc);
        let acc = self.Reserved9.append_to(acc);
        let acc = self.Scores.append_to(acc);
        let acc = self.UserData.append_to(acc);
        let acc = self.HomeMap.append_to(acc);
        let acc = self.HomeX.append_to(acc);
        let acc = self.HomeY.append_to(acc);
        let acc = self.HomeOri.append_to(acc);
        let acc = self.Reserved11.append_to(acc);
        let acc = self.ProtoId.append_to(acc);
        let acc = self.Reserved12.append_to(acc);
        let acc = self.Reserved13.append_to(acc);
        let acc = self.Reserved14.append_to(acc);
        let acc = self.Reserved15.append_to(acc);
        let acc = self.IsDataExt.append_to(acc);
        let acc = self.Reserved16.append_to(acc);
        let acc = self.Reserved17.append_to(acc);
        let acc = self.Reserved18.append_to(acc);
        let acc = self.FavoriteItemPid.append_to(acc);
        let acc = self.Reserved19.append_to(acc);
        let acc = self.EnemyStackCount.append_to(acc);
        let acc = self.EnemyStack.append_to(acc);
        let acc = self.Reserved20.append_to(acc);
        let acc = self.BagCurrentSet.append_to(acc);
        let acc = self.BagRefreshTime.append_to(acc);
        let acc = self.Reserved21.append_to(acc);
        let acc = self.BagSize.append_to(acc);
        let acc = self.Bag.append_to(acc);
        let acc = self.Reserved22.append_to(acc);
        acc
    }

    #[verifier::rlimit(100)]
    proof fn lemma_extends(self, acc: Seq<u8>) {
        self.Id.lemma_extends(acc);
        let a0 = self.Id.append_to(acc);
        self.HexX.lemma_extends(a0);
        let a1 = self.HexX.append_to(a0);
        self.HexY.lemma_extends(a1);
        let a2 = self.HexY.append_to(a1);
        self.WorldX.lemma_extends(a2);
        let a3 = self.WorldX.append_to(a2);
        self.WorldY.lemma_extends(a3);
        let a4 = self.WorldY.append_to(a3);
        self.BaseType.lemma_extends(a4);
        let a5 = self.BaseType.append_to(a4);
        self.Dir.lemma_extends(a5);
        let a6 = self.Dir.append_to(a5);
        self.Cond.lemma_extends(a6);
        let a7 = self.Cond.append_to(a6);
        self.ReservedCE.lemma_extends(a7);
        let a8 = self.ReservedCE.append_to(a7);
        self.Reserved0.lemma_extends(a8);
        let a9 = self.Reserved0.append_to(a8);
        self.ScriptId.lemma_extends(a9);
        let a10 = self.ScriptId.append_to(a9);
        self.ShowCritterDist1.lemma_extends(a10);
        let a11 = self.ShowCritterDist1.append_to(a10);
        self.ShowCritterDist2.lemma_extends(a11);
        let a12 = self.ShowCritterDist2.append_to(a11);
        self.ShowCritterDist3.lemma_extends(a12);
        let a13 = self.ShowCritterDist3.append_to(a12);
        self.Reserved00.lemma_extends(a13);
        let a14 = self.Reserved00.append_to(a13);
        self.Multihex.lemma_extends(a14);
        let a15 = self.Multihex.append_to(a14);
        self.GlobalGroupUid.lemma_extends(a15);
        let a16 = self.GlobalGroupUid.append_to(a15);
        self.LastHexX.lemma_extends(a16);
        let a17 = self.LastHexX.append_to(a16);
        self.LastHexY.lemma_extends(a17);
        let a18 = self.LastHexY.append_to(a17);
        self.Reserved1.lemma_extends(a18);
        let a19 = self.Reserved1.append_to(a18);
        self.MapId.lemma_extends(a19);
        let a20 = self.MapId.append_to(a19);
        self.MapPid.lemma_extends(a20);
        let a21 = self.MapPid.append_to(a20);
        self.Reserved2.lemma_extends(a21);
        let a22 = self.Reserved2.append_to(a21);
        self.Params.lemma_extends(a22);
        let a23 = self.Params.append_to(a22);
        self.Anim1Life.lemma_extends(a23);
        let a24 = self.Anim1Life.append_to(a23);
        self.Anim1Knockout.lemma_extends(a24);
        let a25 = self.Anim1Knockout.append_to(a24);
        self.Anim1Dead.lemma_extends(a25);
        let a26 = self.Anim1Dead.append_to(a25);
        self.Anim2Life.lemma_extends(a26);
        let a27 = self.Anim2Life.append_to(a26);
        self.Anim2Knockout.lemma_extends(a27);
        let a28 = self.Anim2Knockout.append_to(a27);
        self.Anim2Dead.lemma_extends(a28);
        let a29 = self.Anim2Dead.append_to(a28);
        self.Anim2KnockoutEnd.lemma_extends(a29);
        let a30 = self.Anim2KnockoutEnd.append_to(a29);
        self.Reserved3.lemma_extends(a30);
        let a31 = self.Reserved3.append_to(a30);
        self.Lexems.lemma_extends(a31);
        let a32 = self.Lexems.append_to(a31);
        self.Reserved4.lemma_extends(a32);
        let a33 = self.Reserved4.append_to(a32);
        self.ClientToDelete.lemma_extends(a33);
        let a34 = self.ClientToDelete.append_to(a33);
        self.Reserved5.lemma_extends(a34);
        let a35 = self.Reserved5.append_to(a34);
        self.Reserved6.lemma_extends(a35);
        let a36 = self.Reserved6.append_to(a35);
        self.Temp.lemma_extends(a36);
        let a37 = self.Temp.append_to(a36);
        self.Reserved8.lemma_extends(a37);
        let a38 = self.Reserved8.append_to(a37);
        self.HoloInfoCount.lemma_extends(a38);
        let a39 = self.HoloInfoCount.append_to(a38);
        self.HoloInfo.lemma_extends(a39);
        let a40 = self.HoloInfo.append_to(a39);
        self.Reserved9.lemma_extends(a40);
        let a41 = self.Reserved9.append_to(a40);
        self.Scores.lemma_extends(a41);
        let a42 = self.Scores.append_to(a41);
        self.UserData.lemma_extends(a42);
        let a43 = self.UserData.append_to(a42);
        self.HomeMap.lemma_extends(a43);
        let a44 = self.HomeMap.append_to(a43);
        self.HomeX.lemma_extends(a44);
        let a45 = self.HomeX.append_to(a44);
        self.HomeY.lemma_extends(a45);
        let a46 = self.HomeY.append_to(a45);
        self.HomeOri.lemma_extends(a46);
        let a47 = self.HomeOri.append_to(a46);
        self.Reserved11.lemma_extends(a47);
        let a48 = self.Reserved11.append_to(a47);
        self.ProtoId.lemma_extends(a48);
        let a49 = self.ProtoId.append_to(a48);
        self.Reserved12.lemma_extends(a49);
        let a50 = self.Reserved12.append_to(a49);
        self.Reserved13.lemma_extends(a50);
        let a51 = self.Reserved13.append_to(a50);
        self.Reserved14.lemma_extends(a51);
        let a52 = self.Reserved14.append_to(a51);
        self.Reserved15.lemma_extends(a52);
        let a53 = self.Reserved15.append_to(a52);
        self.IsDataExt.lemma_extends(a53);
        let a54 = self.IsDataExt.append_to(a53);
        self.Reserved16.lemma_extends(a54);
        let a55 = self.Reserved16.append_to(a54);
        self.Reserved17.lemma_extends(a55);
        let a56 = self.Reserved17.append_to(a55);
        self.Reserved18.lemma_extends(a56);
        let a57 = self.Reserved18.append_to(a56);
        self.FavoriteItemPid.lemma_extends(a57);
        let a58 = self.FavoriteItemPid.append_to(a57);
        self.Reserved19.lemma_extends(a58);
        let a59 = self.Reserved19.append_to(a58);
        self.EnemyStackCount.lemma_extends(a59);
        let a60 = self.EnemyStackCount.append_to(a59);
        self.EnemyStack.lemma_extends(a60);
        let a61 = self.EnemyStack.append_to(a60);
        self.Reserved20.lemma_extends(a61);
        let a62 = self.Reserved20.append_to(a61);
        self.BagCurrentSet.lemma_extends(a62);
        let a63 = self.BagCurrentSet.append_to(a62);
        self.BagRefreshTime.lemma_extends(a63);
        let a64 = self.BagRefreshTime.append_to(a63);
        self.Reserved21.lemma_extends(a64);
        let a65 = self.Reserved21.append_to(a64);
        self.BagSize.lemma_extends(a65);
        let a66 = self.BagSize.append_to(a65);
        self.Bag.lemma_extends(a66);
        let a67 = self.Bag.append_to(a66);
        self.Reserved22.lemma_extends(a67);
    }

    #[verifier::rlimit(100)]
    proof fn lemma_injective(self, other: Self, acc: Seq<u8>, acc2: Seq<u8>) {
        // both layouts reach each field after equally many bytes
        self.Id.lemma_extends(acc);
        other.Id.lemma_extends(acc2);
        let a0 = self.Id.append_to(acc);
        let b0 = other.Id.append_to(acc2);
        self.HexX.lemma_extends(a0);
        other.HexX.lemma_extends(b0);
        let a1 = self.HexX.append_to(a0);
        let b1 = other.HexX.append_to(b0);
        self.HexY.lemma_extends(a1);
        other.HexY.lemma_extends(b1);
        let a2 = self.HexY.append_to(a1);
        let b2 = other.HexY.append_to(b1);
        self.WorldX.lemma_extends(a2);
        other.WorldX.lemma_extends(b2);
        let a3 = self.WorldX.append_to(a2);
        let b3 = other.WorldX.append_to(b2);
        self.WorldY.lemma_extends(a3);
        other.WorldY.lemma_extends(b3);
        let a4 = self.WorldY.append_to(a3);
        let b4 = other.WorldY.append_to(b3);
        self.BaseType.lemma_extends(a4);
        other.BaseType.lemma_extends(b4);
        let a5 = self.BaseType.append_to(a4);
        let b5 = other.BaseType.append_to(b4);
        self.Dir.lemma_extends(a5);
        other.Dir.lemma_extends(b5);
        let a6 = self.Dir.append_to(a5);
        let b6 = other.Dir.append_to(b5);
        self.Cond.lemma_extends(a6);
        other.Cond.lemma_extends(b6);
        let a7 = self.Cond.append_to(a6);
        let b7 = other.Cond.append_to(b6);
        self.ReservedCE.lemma_extends(a7);
        other.ReservedCE.lemma_extends(b7);
        let a8 = self.ReservedCE.append_to(a7);
        let b8 = other.ReservedCE.append_to(b7);
        self.Reserved0.lemma_extends(a8);
        other.Reserved0.lemma_extends(b8);
        let a9 = self.Reserved0.append_to(a8);
        let b9 = other.Reserved0.append_to(b8);
        self.ScriptId.lemma_extends(a9);
        other.ScriptId.lemma_extends(b9);
        let a10 = self.ScriptId.append_to(a9);
        let b10 = other.ScriptId.append_to(b9);
        self.ShowCritterDist1.lemma_extends(a10);
        other.ShowCritterDist1.lemma_extends(b10);
        let a11 = self.ShowCritterDist1.append_to(a10);
        let b11 = other.ShowCritterDist1.append_to(b10);
        self.ShowCritterDist2.lemma_extends(a11);
        other.ShowCritterDist2.lemma_extends(b11);
        let a12 = self.ShowCritterDist2.append_to(a11);
        let b12 = other.ShowCritterDist2.append_to(b11);
        self.ShowCritterDist3.lemma_extends(a12);
        other.ShowCritterDist3.lemma_extends(b12);
        let a13 = self.ShowCritterDist3.append_to(a12);
        let b13 = other.ShowCritterDist3.append_to(b12);
        self.Reserved00.lemma_extends(a13);
        other.Reserved00.lemma_extends(b13);
        let a14 = self.Reserved00.append_to(a13);
        let b14 = other.Reserved00.append_to(b13);
        self.Multihex.lemma_extends(a14);
        other.Multihex.lemma_extends(b14);
        let a15 = self.Multihex.append_to(a14);
        let b15 = other.Multihex.append_to(b14);
        self.GlobalGroupUid.lemma_extends(a15);
        other.GlobalGroupUid.lemma_extends(b15);
        let a16 = self.GlobalGroupUid.append_to(a15);
        let b16 = other.GlobalGroupUid.append_to(b15);
        self.LastHexX.lemma_extends(a16);
        other.LastHexX.lemma_extends(b16);
        let a17 = self.LastHexX.append_to(a16);
        let b17 = other.LastHexX.append_to(b16);
        self.LastHexY.lemma_extends(a17);
        other.LastHexY.lemma_extends(b17);
        let a18 = self.LastHexY.append_to(a17);
        let b18 = other.LastHexY.append_to(b17);
        self.Reserved1.lemma_extends(a18);
        other.Reserved1.lemma_extends(b18);
        let a19 = self.Reserved1.append_to(a18);
        let b19 = other.Reserved1.append_to(b18);
        self.MapId.lemma_extends(a19);
        other.MapId.lemma_extends(b19);
        let a20 = self.MapId.append_to(a19);
        let b20 = other.MapId.append_to(b19);
        self.MapPid.lemma_extends(a20);
        other.MapPid.lemma_extends(b20);
        let a21 = self.MapPid.append_to(a20);
        let b21 = other.MapPid.append_to(b20);
        self.Reserved2.lemma_extends(a21);
        other.Reserved2.lemma_extends(b21);
        let a22 = self.Reserved2.append_to(a21);
        let b22 = other.Reserved2.append_to(b21);
        self.Params.lemma_extends(a22);
        other.Params.lemma_extends(b22);
        let a23 = self.Params.append_to(a22);
        let b23 = other.Params.append_to(b22);
        self.Anim1Life.lemma_extends(a23);
        other.Anim1Life.lemma_extends(b23);
        let a24 = self.Anim1Life.append_to(a23);
        let b24 = other.Anim1Life.append_to(b23);
        self.Anim1Knockout.lemma_extends(a24);
        other.Anim1Knockout.lemma_extends(b24);
        let a25 = self.Anim1Knockout.append_to(a24);
        let b25 = other.Anim1Knockout.append_to(b24);
        self.Anim1Dead.lemma_extends(a25);
        other.Anim1Dead.lemma_extends(b25);
        let a26 = self.Anim1Dead.append_to(a25);
        let b26 = other.Anim1Dead.append_to(b25);
        self.Anim2Life.lemma_extends(a26);
        other.Anim2Life.lemma_extends(b26);
        let a27 = self.Anim2Life.append_to(a26);
        let b27 = other.Anim2Life.append_to(b26);
        self.Anim2Knockout.lemma_extends(a27);
        other.Anim2Knockout.lemma_extends(b27);
        let a28 = self.Anim2Knockout.append_to(a27);
        let b28 = other.Anim2Knockout.append_to(b27);
        self.Anim2Dead.lemma_extends(a28);
        other.Anim2Dead.lemma_extends(b28);
        let a29 = self.Anim2Dead.append_to(a28);
        let b29 = other.Anim2Dead.append_to(b28);
        self.Anim2KnockoutEnd.lemma_extends(a29);
        other.Anim2KnockoutEnd.lemma_extends(b29);
        let a30 = self.Anim2KnockoutEnd.append_to(a29);
        let b30 = other.Anim2KnockoutEnd.append_to(b29);
        self.Reserved3.lemma_extends(a30);
        other.Reserved3.lemma_extends(b30);
        let a31 = self.Reserved3.append_to(a30);
        let b31 = other.Reserved3.append_to(b30);
        self.Lexems.lemma_extends(a31);
        other.Lexems.lemma_extends(b31);
        let a32 = self.Lexems.append_to(a31);
        let b32 = other.Lexems.append_to(b31);
        self.Reserved4.lemma_extends(a32);
        other.Reserved4.lemma_extends(b32);
        let a33 = self.Reserved4.append_to(a32);
        let b33 = other.Reserved4.append_to(b32);
        self.ClientToDelete.lemma_extends(a33);
        other.ClientToDelete.lemma_extends(b33);
        let a34 = self.ClientToDelete.append_to(a33);
        let b34 = other.ClientToDelete.append_to(b33);
        self.Reserved5.lemma_extends(a34);
        other.Reserved5.lemma_extends(b34);
        let a35 = self.Reserved5.append_to(a34);
        let b35 = other.Reserved5.append_to(b34);
        self.Reserved6.lemma_extends(a35);
        other.Reserved6.lemma_extends(b35);
        let a36 = self.Reserved6.append_to(a35);
        let b36 = other.Reserved6.append_to(b35);
        self.Temp.lemma_extends(a36);
        other.Temp.lemma_extends(b36);
        let a37 = self.Temp.append_to(a36);
        let b37 = other.Temp.append_to(b36);
        self.Reserved8.lemma_extends(a37);
        other.Reserved8.lemma_extends(b37);
        let a38 = self.Reserved8.append_to(a37);
        let b38 = other.Reserved8.append_to(b37);
        self.HoloInfoCount.lemma_extends(a38);
        other.HoloInfoCount.lemma_extends(b38);
        let a39 = self.HoloInfoCount.append_to(a38);
        let b39 = other.HoloInfoCount.append_to(b38);
        self.HoloInfo.lemma_extends(a39);
        other.HoloInfo.lemma_extends(b39);
        let a40 = self.HoloInfo.append_to(a39);
        let b40 = other.HoloInfo.append_to(b39);
        self.Reserved9.lemma_extends(a40);
        other.Reserved9.lemma_extends(b40);
        let a41 = self.Reserved9.append_to(a40);
        let b41 = other.Reserved9.append_to(b40);
        self.Scores.lemma_extends(a41);
        other.Scores.lemma_extends(b41);
        let a42 = self.Scores.append_to(a41);
        let b42 = other.Scores.append_to(b41);
        self.UserData.lemma_extends(a42);
        other.UserData.lemma_extends(b42);
        let a43 = self.UserData.append_to(a42);
        let b43 = other.UserData.append_to(b42);
        self.HomeMap.lemma_extends(a43);
        other.HomeMap.lemma_extends(b43);
        let a44 = self.HomeMap.append_to(a43);
        let b44 = other.HomeMap.append_to(b43);
        self.HomeX.lemma_extends(a44);
        other.HomeX.lemma_extends(b44);
        let a45 = self.HomeX.append_to(a44);
        let b45 = other.HomeX.append_to(b44);
        self.HomeY.lemma_extends(a45);
        other.HomeY.lemma_extends(b45);
        let a46 = self.HomeY.append_to(a45);
        let b46 = other.HomeY.append_to(b45);
        self.HomeOri.lemma_extends(a46);
        other.HomeOri.lemma_extends(b46);
        let a47 = self.HomeOri.append_to(a46);
        let b47 = other.HomeOri.append_to(b46);
        self.Reserved11.lemma_extends(a47);
        other.Reserved11.lemma_extends(b47);
        let a48 = self.Reserved11.append_to(a47);
        let b48 = other.Reserved11.append_to(b47);
        self.ProtoId.lemma_extends(a48);
        other.ProtoId.lemma_extends(b48);
        let a49 = self.ProtoId.append_to(a48);
        let b49 = other.ProtoId.append_to(b48);
        self.Reserved12.lemma_extends(a49);
        other.Reserved12.lemma_extends(b49);
        let a50 = self.Reserved12.append_to(a49);
        let b50 = other.Reserved12.append_to(b49);
        self.Reserved13.lemma_extends(a50);
        other.Reserved13.lemma_extends(b50);
        let a51 = self.Reserved13.append_to(a50);
        let b51 = other.Reserved13.append_to(b50);
        self.Reserved14.lemma_extends(a51);
        other.Reserved14.lemma_extends(b51);
        let a52 = self.Reserved14.append_to(a51);
        let b52 = other.Reserved14.append_to(b51);
        self.Reserved15.lemma_extends(a52);
        other.Reserved15.lemma_extends(b52);
        let a53 = self.Reserved15.append_to(a52);
        let b53 = other.Reserved15.append_to(b52);
        self.IsDataExt.lemma_extends(a53);
        other.IsDataExt.lemma_extends(b53);
        let a54 = self.IsDataExt.append_to(a53);
        let b54 = other.IsDataExt.append_to(b53);
        self.Reserved16.lemma_extends(a54);
        other.Reserved16.lemma_extends(b54);
        let a55 = self.Reserved16.append_to(a54);
        let b55 = other.Reserved16.append_to(b54);
        self.Reserved17.lemma_extends(a55);
        other.Reserved17.lemma_extends(b55);
        let a56 = self.Reserved17.append_to(a55);
        let b56 = other.Reserved17.append_to(b55);
        self.Reserved18.lemma_extends(a56);
        other.Reserved18.lemma_extends(b56);
        let a57 = self.Reserved18.append_to(a56);
        let b57 = other.Reserved18.append_to(b56);
        self.FavoriteItemPid.lemma_extends(a57);
        other.FavoriteItemPid.lemma_extends(b57);
        let a58 = self.FavoriteItemPid.append_to(a57);
        let b58 = other.FavoriteItemPid.append_to(b57);
        self.Reserved19.lemma_extends(a58);
        other.Reserved19.lemma_extends(b58);
        let a59 = self.Reserved19.append_to(a58);
        let b59 = other.Reserved19.append_to(b58);
        self.EnemyStackCount.lemma_extends(a59);
        other.EnemyStackCount.lemma_extends(b59);
        let a60 = self.EnemyStackCount.append_to(a59);
        let b60 = other.EnemyStackCount.append_to(b59);
        self.EnemyStack.lemma_extends(a60);
        other.EnemyStack.lemma_extends(b60);
        let a61 = self.EnemyStack.append_to(a60);
        let b61 = other.EnemyStack.append_to(b60);
        self.Reserved20.lemma_extends(a61);
        other.Reserved20.lemma_extends(b61);
        let a62 = self.Reserved20.append_to(a61);
        let b62 = other.Reserved20.append_to(b61);
        self.BagCurrentSet.lemma_extends(a62);
        other.BagCurrentSet.lemma_extends(b62);
        let a63 = self.BagCurrentSet.append_to(a62);
        let b63 = other.BagCurrentSet.append_to(b62);
        self.BagRefreshTime.lemma_extends(a63);
        other.BagRefreshTime.lemma_extends(b63);
        let a64 = self.BagRefreshTime.append_to(a63);
        let b64 = other.BagRefreshTime.append_to(b63);
        self.Reserved21.lemma_extends(a64);
        other.Reserved21.lemma_extends(b64);
        let a65 = self.Reserved21.append_to(a64);
        let b65 = other.Reserved21.append_to(b64);
        self.BagSize.lemma_extends(a65);
        other.BagSize.lemma_extends(b65);
        let a66 = self.BagSize.append_to(a65);
        let b66 = other.BagSize.append_to(b65);
        self.Bag.lemma_extends(a66);
        other.Bag.lemma_extends(b66);
        let a67 = self.Bag.append_to(a66);
        let b67 = other.Bag.append_to(b66);
        self.Reserved22.lemma_extends(a67);
        other.Reserved22.lemma_extends(b67);
        // so the fields can be taken off from the last one
        self.Reserved22.lemma_injective(other.Reserved22, a67, b67);
        self.Bag.lemma_injective(other.Bag, a66, b66);
        self.BagSize.lemma_injective(other.BagSize, a65, b65);
        self.Reserved21.lemma_injective(other.Reserved21, a64, b64);
        self.BagRefreshTime.lemma_injective(other.BagRefreshTime, a63, b63);
        self.BagCurrentSet.lemma_injective(other.BagCurrentSet, a62, b62);
        self.Reserved20.lemma_injective(other.Reserved20, a61, b61);
        self.EnemyStack.lemma_injective(other.EnemyStack, a60, b60);
        self.EnemyStackCount.lemma_injective(other.EnemyStackCount, a59, b59);
        self.Reserved19.lemma_injective(other.Reserved19, a58, b58);
        self.FavoriteItemPid.lemma_injective(other.FavoriteItemPid, a57, b57);
        self.Reserved18.lemma_injective(other.Reserved18, a56, b56);
        self.Reserved17.lemma_injective(other.Reserved17, a55, b55);
        self.Reserved16.lemma_injective(other.Reserved16, a54, b54);
        self.IsDataExt.lemma_injective(other.IsDataExt, a53, b53);
        self.Reserved15.lemma_injective(other.Reserved15, a52, b52);
        self.Reserved14.lemma_injective(other.Reserved14, a51, b51);
        self.Reserved13.lemma_injective(other.Reserved13, a50, b50);
        self.Reserved12.lemma_injective(other.Reserved12, a49, b49);
        self.ProtoId.lemma_injective(other.ProtoId, a48, b48);
        self.Reserved11.lemma_injective(other.Reserved11, a47, b47);
        self.HomeOri.lemma_injective(other.HomeOri, a46, b46);
        self.HomeY.lemma_injective(other.HomeY, a45, b45);
        self.HomeX.lemma_injective(other.HomeX, a44, b44);
        self.HomeMap.lemma_injective(other.HomeMap, a43, b43);
        self.UserData.lemma_injective(other.UserData, a42, b42);
        self.Scores.lemma_injective(other.Scores, a41, b41);
        self.Reserved9.lemma_injective(other.Reserved9, a40, b40);
        self.HoloInfo.lemma_injective(other.HoloInfo, a39, b39);
        self.HoloInfoCount.lemma_injective(other.HoloInfoCount, a38, b38);
        self.Reserved8.lemma_injective(other.Reserved8, a37, b37);
        self.Temp.lemma_injective(other.Temp, a36, b36);
        self.Reserved6.lemma_injective(other.Reserved6, a35, b35);
        self.Reserved5.lemma_injective(other.Reserved5, a34, b34);
        self.ClientToDelete.lemma_injective(other.ClientToDelete, a33, b33);
        self.Reserved4.lemma_injective(other.Reserved4, a32, b32);
        self.Lexems.lemma_injective(other.Lexems, a31, b31);
        self.Reserved3.lemma_injective(other.Reserved3, a30, b30);
        self.Anim2KnockoutEnd.lemma_injective(other.Anim2KnockoutEnd, a29, b29);
        self.Anim2Dead.lemma_injective(other.Anim2Dead, a28, b28);
        self.Anim2Knockout.lemma_injective(other.Anim2Knockout, a27, b27);
        self.Anim2Life.lemma_injective(other.Anim2Life, a26, b26);
        self.Anim1Dead.lemma_injective(other.Anim1Dead, a25, b25);
        self.Anim1Knockout.lemma_injective(other.Anim1Knockout, a24, b24);
        self.Anim1Life.lemma_injective(other.Anim1Life, a23, b23);
        self.Params.lemma_injective(other.Params, a22, b22);
        self.Reserved2.lemma_injective(other.Reserved2, a21, b21);
        self.MapPid.lemma_injective(other.MapPid, a20, b20);
        self.MapId.lemma_injective(other.MapId, a19, b19);
        self.Reserved1.lemma_injective(other.Reserved1, a18, b18);
        self.LastHexY.lemma_injective(other.LastHexY, a17, b17);
        self.LastHexX.lemma_injective(other.LastHexX, a16, b16);
        self.GlobalGroupUid.lemma_injective(other.GlobalGroupUid, a15, b15);
        self.Multihex.lemma_injective(other.Multihex, a14, b14);
        self.Reserved00.lemma_injective(other.Reserved00, a13, b13);
        self.ShowCritterDist3.lemma_injective(other.ShowCritterDist3, a12, b12);
        self.ShowCritterDist2.lemma_injective(other.ShowCritterDist2, a11, b11);
        self.ShowCritterDist1.lemma_injective(other.ShowCritterDist1, a10, b10);
        self.ScriptId.lemma_injective(other.ScriptId, a9, b9);
        self.Reserved0.lemma_injective(other.Reserved0, a8, b8);
        self.ReservedCE.lemma_injective(other.ReservedCE, a7, b7);
        self.Cond.lemma_injective(other.Cond, a6, b6);
        self.Dir.lemma_injective(other.Dir, a5, b5);
        self.BaseType.lemma_injective(other.BaseType, a4, b4);
        self.WorldY.lemma_injective(other.WorldY, a3, b3);
        self.WorldX.lemma_injective(other.WorldX, a2, b2);
        self.HexY.lemma_injective(other.HexY, a1, b1);
        self.HexX.lemma_injective(other.HexX, a0, b0);
        self.Id.lemma_injective(other.Id, acc, acc2);
    }

    open spec fn is_blank(self) -> bool {
        &&& self.Id.is_blank()
        &&& self.HexX.is_blank()
        &&& self.HexY.is_blank()
        &&& self.WorldX.is_blank()
        &&& self.WorldY.is_blank()
        &&& self.BaseType.is_blank()
        &&& self.Dir.is_blank()
        &&& self.Cond.is_blank()
        &&& self.ReservedCE.is_blank()
        &&& self.Reserved0.is_blank()
        &&& self.ScriptId.is_blank()
        &&& self.ShowCritterDist1.is_blank()
        &&& self.ShowCritterDist2.is_blank()
        &&& self.ShowCritterDist3.is_blank()
        &&& self.Reserved00.is_blank()
        &&& self.Multihex.is_blank()
        &&& self.GlobalGroupUid.is_blank()
        &&& self.LastHexX.is_blank()
        &&& self.LastHexY.is_blank()
        &&& self.Reserved1.is_blank()
        &&& self.MapId.is_blank()
        &&& self.MapPid.is_blank()
        &&& self.Reserved2.is_blank()
        &&& self.Params.is_blank()
        &&& self.Anim1Life.is_blank()
        &&& self.Anim1Knockout.is_blank()
        &&& self.Anim1Dead.is_blank()
        &&& self.Anim2Life.is_blank()
        &&& self.Anim2Knockout.is_blank()
        &&& self.Anim2Dead.is_blank()
        &&& self.Anim2KnockoutEnd.is_blank()
        &&& self.Reserved3.is_blank()
        &&& self.Lexems.is_blank()
        &&& self.Reserved4.is_blank()
        &&& self.ClientToDelete.is_blank()
        &&& self.Reserved5.is_blank()
        &&& self.Reserved6.is_blank()
        &&& self.Temp.is_blank()
        &&& self.Reserved8.is_blank()
        &&& self.HoloInfoCount.is_blank()
        &&& self.HoloInfo.is_blank()
        &&& self.Reserved9.is_blank()
        &&& self.Scores.is_blank()
        &&& self.UserData.is_blank()
        &&& self.HomeMap.is_blank()
        &&& self.HomeX.is_blank()
        &&& self.HomeY.is_blank()
        &&& self.HomeOri.is_blank()
        &&& self.Reserved11.is_blank()
        &&& self.ProtoId.is_blank()
        &&& self.Reserved12.is_blank()
        &&& self.Reserved13.is_blank()
        &&& self.Reserved14.is_blank()
        &&& self.Reserved15.is_blank()
        &&& self.IsDataExt.is_blank()
        &&& self.Reserved16.is_blank()
        &&& self.Reserved17.is_blank()
        &&& self.Reserved18.is_blank()
        &&& self.FavoriteItemPid.is_blank()
        &&& self.Reserved19.is_blank()
        &&& self.EnemyStackCount.is_blank()
        &&& self.EnemyStack.is_blank()
        &&& self.Reserved20.is_blank()
        &&& self.BagCurrentSet.is_blank()
        &&& self.BagRefreshTime.is_blank()
        &&& self.Reserved21.is_blank()
        &&& self.BagSize.is_blank()
        &&& self.Bag.is_blank()
        &&& self.Reserved22.is_blank()
    }

    fn blank() -> Self {
        CritData {
            Id: u32::blank(),
            HexX: u16::blank(),
            HexY: u16::blank(),
            WorldX: u16::blank(),
            WorldY: u16::blank(),
            BaseType: u32::blank(),
            Dir: u8::blank(),
            Cond: u8::blank(),
            ReservedCE: u8::blank(),
            Reserved0: i8::blank(),
            ScriptId: u32::blank(),
            ShowCritterDist1: u32::blank(),
            ShowCritterDist2: u32::blank(),
            ShowCritterDist3: u32::blank(),
            Reserved00: u16::blank(),
            Multihex: i16::blank(),
            GlobalGroupUid: u32::blank(),
            LastHexX: u16::blank(),
            LastHexY: u16::blank(),
            Reserved1: <[u32; 4] as Field>::blank(),
            MapId: u32::blank(),
            MapPid: u16::blank(),
            Reserved2: u16::blank(),
            Params: <[i32; 1000] as Field>::blank(),
            Anim1Life: u32::blank(),
            Anim1Knockout: u32::blank(),
            Anim1Dead: u32::blank(),
            Anim2Life: u32::blank(),
            Anim2Knockout: u32::blank(),
            Anim2Dead: u32::blank(),
            Anim2KnockoutEnd: u32::blank(),
            Reserved3: <[u32; 3] as Field>::blank(),
            Lexems: <[i8; 128] as Field>::blank(),
            Reserved4: <[u32; 8] as Field>::blank(),
            ClientToDelete: Bool::blank(),
            Reserved5: u8::blank(),
            Reserved6: u16::blank(),
            Temp: u32::blank(),
            Reserved8: u16::blank(),
            HoloInfoCount: u16::blank(),
            HoloInfo: <[u32; 250] as Field>::blank(),
            Reserved9: <[u32; 10] as Field>::blank(),
            Scores: <[i32; 50] as Field>::blank(),
            UserData: <[u8; 400] as Field>::blank(),
            HomeMap: u32::blank(),
            HomeX: u16::blank(),
            HomeY: u16::blank(),
            HomeOri: u8::blank(),
            Reserved11: u8::blank(),
            ProtoId: u16::blank(),
            Reserved12: u32::blank(),
            Reserved13: u32::blank(),
            Reserved14: u32::blank(),
            Reserved15: u32::blank(),
            IsDataExt: Bool::blank(),
            Reserved16: u8::blank(),
            Reserved17: u16::blank(),
            Reserved18: <[u32; 8] as Field>::blank(),
            FavoriteItemPid: <[u16; 4] as Field>::blank(),
            Reserved19: <[u32; 10] as Field>::blank(),
            EnemyStackCount: u32::blank(),
            EnemyStack: <[u32; 30] as Field>::blank(),
            Reserved20: <[u32; 5] as Field>::blank(),
            BagCurrentSet: <[u8; 20] as Field>::blank(),
            BagRefreshTime: i16::blank(),
            Reserved21: u8::blank(),
            BagSize: u8::blank(),
            Bag: <[NpcBagItem; 50] as Field>::blank(),
            Reserved22: <[u32; 100] as Field>::blank(),
        }
    }

    fn put(&self, out: &mut Vec<u8>) {
        self.Id.put(out);
        self.HexX.put(out);
        self.HexY.put(out);
        self.WorldX.put(out);
        self.WorldY.put(out);
        self.BaseType.put(out);
        self.Dir.put(out);
        self.Cond.put(out);
        self.ReservedCE.put(out);
        self.Reserved0.put(out);
        self.ScriptId.put(out);
        self.ShowCritterDist1.put(out);
        self.ShowCritterDist2.put(out);
        self.ShowCritterDist3.put(out);
        self.Reserved00.put(out);
        self.Multihex.put(out);
        self.GlobalGroupUid.put(out);
        self.LastHexX.put(out);
        self.LastHexY.put(out);
        self.Reserved1.put(out);
        self.MapId.put(out);
        self.MapPid.put(out);
        self.Reserved2.put(out);
        self.Params.put(out);
        self.Anim1Life.put(out);
        self.Anim1Knockout.put(out);
        self.Anim1Dead.put(out);
        self.Anim2Life.put(out);
        self.Anim2Knockout.put(out);
        self.Anim2Dead.put(out);
        self.Anim2KnockoutEnd.put(out);
        self.Reserved3.put(out);
        self.Lexems.put(out);
        self.Reserved4.put(out);
        self.ClientToDelete.put(out);
        self.Reserved5.put(out);
        self.Reserved6.put(out);
        self.Temp.put(out);
        self.Reserved8.put(out);
        self.HoloInfoCount.put(out);
        self.HoloInfo.put(out);
        self.Reserved9.put(out);
        self.Scores.put(out);
        self.UserData.put(out);
        self.HomeMap.put(out);
        self.HomeX.put(out);
        self.HomeY.put(out);
        self.HomeOri.put(out);
        self.Reserved11.put(out);
        self.ProtoId.put(out);
        self.Reserved12.put(out);
        self.Reserved13.put(out);
        self.Reserved14.put(out);
        self.Reserved15.put(out);
        self.IsDataExt.put(out);
        self.Reserved16.put(out);
        self.Reserved17.put(out);
        self.Reserved18.put(out);
        self.FavoriteItemPid.put(out);
        self.Reserved19.put(out);
        self.EnemyStackCount.put(out);
        self.EnemyStack.put(out);
        self.Reserved20.put(out);
        self.BagCurrentSet.put(out);
        self.BagRefreshTime.put(out);
        self.Reserved21.put(out);
        self.BagSize.put(out);
        self.Bag.put(out);
        self.Reserved22.put(out);
    }

    #[verifier::rlimit(100)]
    fn take(src: &mut ByteReader) -> (r: Self) {
        let Id = u32::take(src);
        let HexX = u16::take(src);
        let HexY = u16::take(src);
        let WorldX = u16::take(src);
        let WorldY = u16::take(src);
        let BaseType = u32::take(src);
        let Dir = u8::take(src);
        let Cond = u8::take(src);
        let ReservedCE = u8::take(src);
        let Reserved0 = i8::take(src);
        let ScriptId = u32::take(src);
        let ShowCritterDist1 = u32::take(src);
        let ShowCritterDist2 = u32::take(src);
        let ShowCritterDist3 = u32::take(src);
        let Reserved00 = u16::take(src);
        let Multihex = i16::take(src);
        let GlobalGroupUid = u32::take(src);
        let LastHexX = u16::take(src);
        let LastHexY = u16::take(src);
        let Reserved1 = <[u32; 4] as Field>::take(src);
        let MapId = u32::take(src);
        let MapPid = u16::take(src);
        let Reserved2 = u16::take(src);
        let Params = <[i32; 1000] as Field>::take(src);
        let Anim1Life = u32::take(src);
        let Anim1Knockout = u32::take(src);
        let Anim1Dead = u32::take(src);
        let Anim2Life = u32::take(src);
        let Anim2Knockout = u32::take(src);
        let Anim2Dead = u32::take(src);
        let Anim2KnockoutEnd = u32::take(src);
        let Reserved3 = <[u32; 3] as Field>::take(src);
        let Lexems = <[i8; 128] as Field>::take(src);
        let Reserved4 = <[u32; 8] as Field>::take(src);
        let ClientToDelete = Bool::take(src);
        let Reserved5 = u8::take(src);
        let Reserved6 = u16::take(src);
        let Temp = u32::take(src);
        let Reserved8 = u16::take(src);
        let HoloInfoCount = u16::take(src);
        let HoloInfo = <[u32; 250] as Field>::take(src);
        let Reserved9 = <[u32; 10] as Field>::take(src);
        let Scores = <[i32; 50] as Field>::take(src);
        let UserData = <[u8; 400] as Field>::take(src);
        let HomeMap = u32::take(src);
        let HomeX = u16::take(src);
        let HomeY = u16::take(src);
        let HomeOri = u8::take(src);
        let Reserved11 = u8::take(src);
        let ProtoId = u16::take(src);
        let Reserved12 = u32::take(src);
        let Reserved13 = u32::take(src);
        let Reserved14 = u32::take(src);
        let Reserved15 = u32::take(src);
        let IsDataExt = Bool::take(src);
        let Reserved16 = u8::take(src);
        let Reserved17 = u16::take(src);
        let Reserved18 = <[u32; 8] as Field>::take(src);
        let FavoriteItemPid = <[u16; 4] as Field>::take(src);
        let Reserved19 = <[u32; 10] as Field>::take(src);
        let EnemyStackCount = u32::take(src);
        let EnemyStack = <[u32; 30] as Field>::take(src);
        let Reserved20 = <[u32; 5] as Field>::take(src);
        let BagCurrentSet = <[u8; 20] as Field>::take(src);
        let BagRefreshTime = i16::take(src);
        let Reserved21 = u8::take(src);
        let BagSize = u8::take(src);
        let Bag = <[NpcBagItem; 50] as Field>::take(src);
        let Reserved22 = <[u32; 100] as Field>::take(src);
        CritData {
            Id,
            HexX,
            HexY,
            WorldX,
            WorldY,
            BaseType,
            Dir,
            Cond,
            ReservedCE,
            Reserved0,
            ScriptId,
            ShowCritterDist1,
            ShowCritterDist2,
            ShowCritterDist3,
            Reserved00,
            Multihex,
            GlobalGroupUid,
            LastHexX,
            LastHexY,
            Reserved1,
            MapId,
            MapPid,
            Reserved2,
            Params,
            Anim1Life,
            Anim1Knockout,
            Anim1Dead,
            Anim2Life,
            Anim2Knockout,
            Anim2Dead,
            Anim2KnockoutEnd,
            Reserved3,
            Lexems,
            Reserved4,
            ClientToDelete,
            Reserved5,
            Reserved6,
            Temp,
            Reserved8,
            HoloInfoCount,
            HoloInfo,
            Reserved9,
            Scores,
            UserData,
            HomeMap,
            HomeX,
            HomeY,
            HomeOri,
            Reserved11,
            ProtoId,
            Reserved12,
            Reserved13,
            Reserved14,
            Reserved15,
            IsDataExt,
            Reserved16,
            Reserved17,
            Reserved18,
            FavoriteItemPid,
            Reserved19,
            EnemyStackCount,
            EnemyStack,
            Reserved20,
            BagCurrentSet,
            BagRefreshTime,
            Reserved21,
            BagSize,
            Bag,
            Reserved22,
        }
    }
}


/// The extension block of a critter record.
#[derive(Debug, Clone, Copy)]
pub struct CritDataExt {
    pub Reserved23: [u32; 10],
    pub GlobalMapFog: [u8; 2500],
    pub Reserved24: u16,
    pub LocationsCount: u16,
    pub LocationsId: [u32; 1000],
    pub Reserved25: [u32; 40],
    pub PlayIp: [u32; 20],
    pub PlayPort: [u16; 20],
    pub CurrentIp: u32,
    pub Reserved26: [u32; 29],
}

impl Field for CritDataExt {
    open spec fn width() -> nat {
        6944
    }

    open spec fn append_to(self, acc: Seq<u8>) -> Seq<u8> {
        let acc = self.Reserved23.append_to(acc);
        let acc = self.GlobalMapFog.append_to(acc);
        let acc = self.Reserved24.append_to(acc);
        let acc = self.LocationsCount.append_to(acc);
        let acc = self.LocationsId.append_to(acc);
        let acc = self.Reserved25.append_to(acc);
        let acc = self.PlayIp.append_to(acc);
        let acc = self.PlayPort.append_to(acc);
        let acc = self.CurrentIp.append_to(acc);
        let acc = self.Reserved26.append_to(acc);
        acc
    }

    proof fn lemma_extends(self, acc: Seq<u8>) {
        self.Reserved23.lemma_extends(acc);
        let a0 = self.Reserved23.append_to(acc);
        self.GlobalMapFog.lemma_extends(a0);
        let a1 = self.GlobalMapFog.append_to(a0);
        self.Reserved24.lemma_extends(a1);
        let a2 = self.Reserved24.append_to(a1);
        self.LocationsCount.lemma_extends(a2);
        let a3 = self.LocationsCount.append_to(a2);
        self.LocationsId.lemma_extends(a3);
        let a4 = self.LocationsId.append_to(a3);
        self.Reserved25.lemma_extends(a4);
        let a5 = self.Reserved25.append_to(a4);
        self.PlayIp.lemma_extends(a5);
        let a6 = self.PlayIp.append_to(a5);
        self.PlayPort.lemma_extends(a6);
        let a7 = self.PlayPort.append_to(a6);
        self.CurrentIp.lemma_extends(a7);
        let a8 = self.CurrentIp.append_to(a7);
        self.Reserved26.lemma_extends(a8);
    }

    proof fn lemma_injective(self, other: Self, acc: Seq<u8>, acc2: Seq<u8>) {
        // both layouts reach each field after equally many bytes
        self.Reserved23.lemma_extends(acc);
        other.Reserved23.lemma_extends(acc2);
        let a0 = self.Reserved23.append_to(acc);
        let b0 = other.Reserved23.append_to(acc2);
        self.GlobalMapFog.lemma_extends(a0);
        other.GlobalMapFog.lemma_extends(b0);
        let a1 = self.GlobalMapFog.append_to(a0);
        let b1 = other.GlobalMapFog.append_to(b0);
        self.Reserved24.lemma_extends(a1);
        other.Reserved24.lemma_extends(b1);
        let a2 = self.Reserved24.append_to(a1);
        let b2 = other.Reserved24.append_to(b1);
        self.LocationsCount.lemma_extends(a2);
        other.LocationsCount.lemma_extends(b2);
        let a3 = self.LocationsCount.append_to(a2);
        let b3 = other.LocationsCount.append_to(b2);
        self.LocationsId.lemma_extends(a3);
        other.LocationsId.lemma_extends(b3);
        let a4 = self.LocationsId.append_to(a3);
        let b4 = other.LocationsId.append_to(b3);
        self.Reserved25.lemma_extends(a4);
        other.Reserved25.lemma_extends(b4);
        let a5 = self.Reserved25.append_to(a4);
        let b5 = other.Reserved25.append_to(b4);
        self.PlayIp.lemma_extends(a5);
        other.PlayIp.lemma_extends(b5);
        let a6 = self.PlayIp.append_to(a5);
        let b6 = other.PlayIp.append_to(b5);
        self.PlayPort.lemma_extends(a6);
        other.PlayPort.lemma_extends(b6);
        let a7 = self.PlayPort.append_to(a6);
        let b7 = other.PlayPort.append_to(b6);
        self.CurrentIp.lemma_extends(a7);
        other.CurrentIp.lemma_extends(b7);
        let a8 = self.CurrentIp.append_to(a7);
        let b8 = other.CurrentIp.append_to(b7);
        self.Reserved26.lemma_extends(a8);
        other.Reserved26.lemma_extends(b8);
        // so the fields can be taken off from the last one
        self.Reserved26.lemma_injective(other.Reserved26, a8, b8);
        self.CurrentIp.lemma_injective(other.CurrentIp, a7, b7);
        self.PlayPort.lemma_injective(other.PlayPort, a6, b6);
        self.PlayIp.lemma_injective(other.PlayIp, a5, b5);
        self.Reserved25.lemma_injective(other.Reserved25, a4, b4);
        self.LocationsId.lemma_injective(other.LocationsId, a3, b3);
        self.LocationsCount.lemma_injective(other.LocationsCount, a2, b2);
        self.Reserved24.lemma_injective(other.Reserved24, a1, b1);
        self.GlobalMapFog.lemma_injective(other.GlobalMapFog, a0, b0);
        self.Reserved23.lemma_injective(other.Reserved23, acc, acc2);
    }

    open spec fn is_blank(self) -> bool {
        &&& self.Reserved23.is_blank()
        &&& self.GlobalMapFog.is_blank()
        &&& self.Reserved24.is_blank()
        &&& self.LocationsCount.is_blank()
        &&& self.LocationsId.is_blank()
        &&& self.Reserved25.is_blank()
        &&& self.PlayIp.is_blank()
        &&& self.PlayPort.is_blank()
        &&& self.CurrentIp.is_blank()
        &&& self.Reserved26.is_blank()
    }

    fn blank() -> Self {
        CritDataExt {
            Reserved23: <[u32; 10] as Field>::blank(),
            GlobalMapFog: <[u8; 2500] as Field>::blank(),
            Reserved24: u16::blank(),
            LocationsCount: u16::blank(),
            LocationsId: <[u32; 1000] as Field>::blank(),
            Reserved25: <[u32; 40] as Field>::blank(),
            PlayIp: <[u32; 20] as Field>::blank(),
            PlayPort: <[u16; 20] as Field>::blank(),
            CurrentIp: u32::blank(),
            Reserved26: <[u32; 29] as Field>::blank(),
        }
    }

    fn put(&self, out: &mut Vec<u8>) {
        self.Reserved23.put(out);
        self.GlobalMapFog.put(out);
        self.Reserved24.put(out);
        self.LocationsCount.put(out);
        self.LocationsId.put(out);
        self.Reserved25.put(out);
        self.PlayIp.put(out);
        self.PlayPort.put(out);
        self.CurrentIp.put(out);
        self.Reserved26.put(out);
    }

    fn take(src: &mut ByteReader) -> (r: Self) {
        let Reserved23 = <[u32; 10] as Field>::take(src);
        let GlobalMapFog = <[u8; 2500] as Field>::take(src);
        let Reserved24 = u16::take(src);
        let LocationsCount = u16::take(src);
        let LocationsId = <[u32; 1000] as Field>::take(src);
        let Reserved25 = <[u32; 40] as Field>::take(src);
        let PlayIp = <[u32; 20] as Field>::take(src);
        let PlayPort = <[u16; 20] as Field>::take(src);
        let CurrentIp = u32::take(src);
        let Reserved26 = <[u32; 29] as Field>::take(src);
        CritDataExt {
            Reserved23,
            GlobalMapFog,
            Reserved24,
            LocationsCount,
            LocationsId,
            Reserved25,
            PlayIp,
            PlayPort,
            CurrentIp,
            Reserved26,
        }
    }
}


/// Size of the primary block in bytes.
pub const DATA_SIZE: usize = 7404;

/// Size of the extension block in bytes.
pub const DATA_EXT_SIZE: usize = 6944;

/// Offset of the time-event count: signature, password hash and both blocks.
pub const COUNT_OFFSET: usize = 14384;

/// Size of everything before the time events.
pub const HEADER_SIZE: usize = 14388;

/// Size of one time event in bytes.
pub const EVENT_SIZE: usize = 16;

/// The largest time-event count that reading accepts.
pub const MAX_EVENTS: u32 = 0xFFFF;

/// The sizes above are those of the layouts: the blocks, a time event, and
/// everything before the events.
pub proof fn lemma_layout_sizes()
    ensures
        CritData::width() == DATA_SIZE,
        CritDataExt::width() == DATA_EXT_SIZE,
        CrTimeEvent::width() == EVENT_SIZE,
        COUNT_OFFSET == 4 + 32 + DATA_SIZE + DATA_EXT_SIZE,
        HEADER_SIZE == COUNT_OFFSET + 4,
{
}

/// The four bytes that open every record.
pub open spec fn signature() -> Seq<u8> {
    seq![70u8, 79u8, 0u8, 2u8]
}

/// Why a byte sequence is not a record. Each of these is a case of invalid
/// data; none of them is worth retrying on the same input.
#[derive(Debug, Clone, Copy, PartialEq, Eq, Structural)]
pub enum ReadError {
    /// The first four bytes are not the record signature.
    InvalidSignature,
    /// The input ends inside a field.
    TruncatedInput,
    /// The time-event count is above `MAX_EVENTS`.
    CountOutOfRange,
    /// Bytes remain after the last time event.
    TrailingData,
}

/// The time-event count stored in `b`, read as a little-endian `u32`.
pub open spec fn stored_count(b: Seq<u8>) -> int {
    b[COUNT_OFFSET as int] as int + 256 * b[COUNT_OFFSET + 1] as int + 65536 * b[COUNT_OFFSET
        + 2] as int + 16777216 * b[COUNT_OFFSET + 3] as int
}

/// What reading `b` comes to: the first check that fails, in the order in
/// which the fields stand, or `Ok` when `b` is a whole record.
pub open spec fn read_verdict(b: Seq<u8>) -> Result<(), ReadError> {
    if b.len() < 4 {
        Err(ReadError::TruncatedInput)
    } else if b.take(4) != signature() {
        Err(ReadError::InvalidSignature)
    } else if b.len() < HEADER_SIZE {
        Err(ReadError::TruncatedInput)
    } else if stored_count(b) > MAX_EVENTS {
        Err(ReadError::CountOutOfRange)
    } else if b.len() < HEADER_SIZE + EVENT_SIZE * stored_count(b) {
        Err(ReadError::TruncatedInput)
    } else if b.len() > HEADER_SIZE + EVENT_SIZE * stored_count(b) {
        Err(ReadError::TrailingData)
    } else {
        Ok(())
    }
}

/// `r` is what reading `b` gives: the error that `read_verdict` names, or a
/// record whose binary form is `b`.
pub open spec fn reads_as(b: Seq<u8>, r: Result<ClientSaveData, ReadError>) -> bool {
    match r {
        Ok(rec) => read_verdict(b) is Ok && rec.encoded() == b,
        Err(e) => read_verdict(b) == Err::<(), ReadError>(e),
    }
}

/// A whole save record.
#[derive(Debug, Clone)]
pub struct ClientSaveData {
    pub signature: [u8; 4],
    pub password_hash: [u8; 32],
    pub data: Box<CritData>,
    pub data_ext: Box<CritDataExt>,
    pub time_events: Vec<CrTimeEvent>,
}

impl ClientSaveData {
    /// The binary form of the record: signature, password hash, both blocks,
    /// the number of time events as a little-endian `u32`, then the events.
    pub open spec fn encoded(&self) -> Seq<u8> {
        let acc = self.signature.append_to(Seq::empty());
        let acc = self.password_hash.append_to(acc);
        let acc = (*self.data).append_to(acc);
        let acc = (*self.data_ext).append_to(acc);
        let acc = (self.time_events@.len() as u32).append_to(acc);
        append_all(self.time_events@, acc)
    }

    /// Both records hold the same values in every field.
    pub open spec fn same_contents(&self, other: &ClientSaveData) -> bool {
        &&& self.signature == other.signature
        &&& self.password_hash == other.password_hash
        &&& *self.data == *other.data
        &&& *self.data_ext == *other.data_ext
        &&& self.time_events@ == other.time_events@
    }

    fn time_events_count(&self) -> (r: u32)
        requires
            self.time_events@.len() <= u32::MAX,
        ensures
            r == self.time_events@.len(),
    {
        self.time_events.len() as u32
    }

    /// Reads a record from the whole of `bytes`.
    ///
    /// Fails with the first error that `read_verdict` names; on success the
    /// record's binary form is `bytes` itself, which determines the record
    /// (`lemma_encoded_injective`).
    pub fn read(bytes: &[u8]) -> (r: Result<ClientSaveData, ReadError>)
        ensures
            reads_as(bytes@, r),
    {
        if bytes.len() < 4 {
            return Err(ReadError::TruncatedInput);
        }
        if !(bytes[0] == 70 && bytes[1] == 79 && bytes[2] == 0 && bytes[3] == 2) {
            assert(bytes@.take(4) != signature()) by {
                if bytes@.take(4) == signature() {
                    assert(bytes@.take(4)[1] == bytes@[1]);
                }
            }
            return Err(ReadError::InvalidSignature);
        }
        assert(bytes@.take(4) =~= signature());
        if bytes.len() < HEADER_SIZE {
            return Err(ReadError::TruncatedInput);
        }
        let mut src = ByteReader::new(bytes);
        assert(src.consumed() =~= Seq::<u8>::empty());
        let signature = <[u8; 4] as Field>::take(&mut src);
        let password_hash = <[u8; 32] as Field>::take(&mut src);
        let data = CritData::take(&mut src);
        let data_ext = CritDataExt::take(&mut src);
        let count = u32::take(&mut src);
        proof {
            codec::lemma_u32_digits(count);
            assert(src.consumed()[COUNT_OFFSET as int] == bytes@[COUNT_OFFSET as int]);
            assert(src.consumed()[COUNT_OFFSET + 1] == bytes@[COUNT_OFFSET + 1]);
            assert(src.consumed()[COUNT_OFFSET + 2] == bytes@[COUNT_OFFSET + 2]);
            assert(src.consumed()[COUNT_OFFSET + 3] == bytes@[COUNT_OFFSET + 3]);
            assert(count == stored_count(bytes@));
        }
        if count > MAX_EVENTS {
            return Err(ReadError::CountOutOfRange);
        }
        let n = count as usize;
        if !src.has(n * EVENT_SIZE) {
            return Err(ReadError::TruncatedInput);
        }
        let ghost base = src.consumed();
        let mut time_events: Vec<CrTimeEvent> = Vec::with_capacity(n);
        let mut i: usize = 0;
        while i < n
            invariant
                src.wf(),
                src.bytes == bytes,
                i <= n,
                n <= MAX_EVENTS,
                time_events@.len() == i,
                src.pos == HEADER_SIZE + EVENT_SIZE * i,
                src.remaining() >= EVENT_SIZE * (n - i),
                src.consumed() == append_all(time_events@, base),
            decreases n - i,
        {
            let ghost before = time_events@;
            let event = CrTimeEvent::take(&mut src);
            time_events.push(event);
            assert(time_events@.drop_last() =~= before);
            i = i + 1;
        }
        if !src.at_end() {
            return Err(ReadError::TrailingData);
        }
        assert(src.consumed() =~= bytes@);
        Ok(
            ClientSaveData {
                signature,
                password_hash,
                data: Box::new(data),
                data_ext: Box::new(data_ext),
                time_events,
            },
        )
    }

    /// The binary form of the record, as `encoded` gives it. The stored count
    /// is the number of time events at the time of the call.
    pub fn write(&self) -> (r: Vec<u8>)
        requires
            self.time_events@.len() <= u32::MAX,
        ensures
            r@ == self.encoded(),
            r@.len() == HEADER_SIZE + EVENT_SIZE * self.time_events@.len(),
            stored_count(r@) == self.time_events@.len(),
    {
        let mut out: Vec<u8> = Vec::new();
        self.signature.put(&mut out);
        self.password_hash.put(&mut out);
        (*self.data).put(&mut out);
        (*self.data_ext).put(&mut out);
        self.time_events_count().put(&mut out);
        put_all(self.time_events.as_slice(), &mut out);
        proof {
            lemma_count_matches(self);
        }
        out
    }

    /// Reads a record from the whole of `bytes`, as `read` does.
    pub fn read_unsafe(bytes: &[u8]) -> (r: Result<ClientSaveData, ReadError>)
        ensures
            reads_as(bytes@, r),
    {
        Self::read(bytes)
    }

    /// Reads a record from the whole of `bytes`, as `read` does.
    pub fn read_bincode(bytes: &[u8]) -> (r: Result<ClientSaveData, ReadError>)
        ensures
            reads_as(bytes@, r),
    {
        Self::read(bytes)
    }

    /// Reads a record from the whole of `bytes`, as `read` does.
    pub fn read_bytemuck(bytes: &[u8]) -> (r: Result<ClientSaveData, ReadError>)
        ensures
            reads_as(bytes@, r),
    {
        Self::read(bytes)
    }

    /// The binary form of the record, as `write` gives it.
    pub fn write_bytemuck(&self) -> (r: Vec<u8>)
        requires
            self.time_events@.len() <= u32::MAX,
        ensures
            r@ == self.encoded(),
            r@.len() == HEADER_SIZE + EVENT_SIZE * self.time_events@.len(),
            stored_count(r@) == self.time_events@.len(),
    {
        self.write()
    }
}

/// The binary form of a record takes `HEADER_SIZE` bytes and `EVENT_SIZE`
/// more for each time event.
pub proof fn lemma_encoded_len(rec: &ClientSaveData)
    ensures
        rec.encoded().len() == HEADER_SIZE + EVENT_SIZE * rec.time_events@.len(),
{
    let count = rec.time_events@.len() as u32;
    let a0 = rec.signature.append_to(Seq::empty());
    rec.signature.lemma_extends(Seq::empty());
    let a1 = rec.password_hash.append_to(a0);
    rec.password_hash.lemma_extends(a0);
    let a2 = (*rec.data).append_to(a1);
    (*rec.data).lemma_extends(a1);
    let a3 = (*rec.data_ext).append_to(a2);
    (*rec.data_ext).lemma_extends(a2);
    let a4 = count.append_to(a3);
    codec::lemma_append_all_extends(rec.time_events@, a4);
}

/// The count stored in the binary form of a record is the number of its
/// time events.
pub proof fn lemma_count_matches(rec: &ClientSaveData)
    requires
        rec.time_events@.len() <= u32::MAX,
    ensures
        rec.encoded().len() == HEADER_SIZE + EVENT_SIZE * rec.time_events@.len(),
        stored_count(rec.encoded()) == rec.time_events@.len(),
{
    let count = rec.time_events@.len() as u32;
    let a0 = rec.signature.append_to(Seq::empty());
    rec.signature.lemma_extends(Seq::empty());
    let a1 = rec.password_hash.append_to(a0);
    rec.password_hash.lemma_extends(a0);
    let a2 = (*rec.data).append_to(a1);
    (*rec.data).lemma_extends(a1);
    let a3 = (*rec.data_ext).append_to(a2);
    (*rec.data_ext).lemma_extends(a2);
    let a4 = count.append_to(a3);
    codec::lemma_u32_digits(count);
    codec::lemma_append_all_extends(rec.time_events@, a4);
    let b = rec.encoded();
    assert(b[COUNT_OFFSET as int] == a4[COUNT_OFFSET as int]);
    assert(b[COUNT_OFFSET + 1] == a4[COUNT_OFFSET + 1]);
    assert(b[COUNT_OFFSET + 2] == a4[COUNT_OFFSET + 2]);
    assert(b[COUNT_OFFSET + 3] == a4[COUNT_OFFSET + 3]);
}

/// The binary form opens with the record's signature bytes.
pub proof fn lemma_encoded_signature(rec: &ClientSaveData)
    ensures
        rec.encoded().take(4) == rec.signature@,
{
    let a0 = rec.signature.append_to(Seq::empty());
    codec::lemma_append_all_bytes(rec.signature@, Seq::empty());
    assert(a0 =~= rec.signature@);
    let a1 = rec.password_hash.append_to(a0);
    rec.password_hash.lemma_extends(a0);
    let a2 = (*rec.data).append_to(a1);
    (*rec.data).lemma_extends(a1);
    let a3 = (*rec.data_ext).append_to(a2);
    (*rec.data_ext).lemma_extends(a2);
    let a4 = (rec.time_events@.len() as u32).append_to(a3);
    (rec.time_events@.len() as u32).lemma_extends(a3);
    codec::lemma_append_all_extends(rec.time_events@, a4);
    assert(rec.encoded().take(4) =~= rec.signature@);
}

/// Records with the same binary form have the same contents: at most one
/// record is read from a given input.
pub proof fn lemma_encoded_injective(a: &ClientSaveData, b: &ClientSaveData)
    requires
        a.encoded() == b.encoded(),
    ensures
        a.same_contents(b),
{
    lemma_encoded_len(a);
    lemma_encoded_len(b);
    let ca = a.time_events@.len() as u32;
    let cb = b.time_events@.len() as u32;
    let a0 = a.signature.append_to(Seq::empty());
    let b0 = b.signature.append_to(Seq::empty());
    a.signature.lemma_extends(Seq::empty());
    b.signature.lemma_extends(Seq::empty());
    let a1 = a.password_hash.append_to(a0);
    let b1 = b.password_hash.append_to(b0);
    a.password_hash.lemma_extends(a0);
    b.password_hash.lemma_extends(b0);
    let a2 = (*a.data).append_to(a1);
    let b2 = (*b.data).append_to(b1);
    (*a.data).lemma_extends(a1);
    (*b.data).lemma_extends(b1);
    let a3 = (*a.data_ext).append_to(a2);
    let b3 = (*b.data_ext).append_to(b2);
    (*a.data_ext).lemma_extends(a2);
    (*b.data_ext).lemma_extends(b2);
    let a4 = ca.append_to(a3);
    let b4 = cb.append_to(b3);
    ca.lemma_extends(a3);
    cb.lemma_extends(b3);
    codec::lemma_append_all_injective(a.time_events@, b.time_events@, a4, b4);
    ca.lemma_injective(cb, a3, b3);
    (*a.data_ext).lemma_injective(*b.data_ext, a2, b2);
    (*a.data).lemma_injective(*b.data, a1, b1);
    a.password_hash.lemma_injective(b.password_hash, a0, b0);
    a.signature.lemma_injective(b.signature, Seq::empty(), Seq::empty());
}

/// Round trip: writing a record that reading accepted gives back the bytes it
/// was read from, byte for byte. Such a record meets `write`'s precondition.
pub proof fn lemma_write_after_read(b: Seq<u8>, rec: ClientSaveData)
    requires
        reads_as(b, Ok(rec)),
    ensures
        rec.time_events@.len() <= MAX_EVENTS,
        rec.encoded() == b,
{
    if rec.time_events@.len() <= u32::MAX {
        lemma_count_matches(&rec);
    } else {
        // too long for any input that reading accepts
        lemma_encoded_len(&rec);
    }
}

/// Reading what `write` gives for a record that carries the signature and at
/// most `MAX_EVENTS` time events succeeds and yields the same record.
pub proof fn lemma_read_after_write(rec: ClientSaveData, r: Result<ClientSaveData, ReadError>)
    requires
        rec.signature@ == signature(),
        rec.time_events@.len() <= MAX_EVENTS,
        reads_as(rec.encoded(), r),
    ensures
        r is Ok,
        r->Ok_0.same_contents(&rec),
{
    lemma_count_matches(&rec);
    lemma_encoded_signature(&rec);
    if let Ok(got) = r {
        lemma_encoded_injective(&got, &rec);
    }
}

/// An input whose first four bytes are not the signature is refused as such.
pub proof fn lemma_bad_signature(b: Seq<u8>)
    requires
        b.len() >= 4,
        b.take(4) != signature(),
    ensures
        read_verdict(b) == Err::<(), ReadError>(ReadError::InvalidSignature),
{
}

/// Every proper prefix of an accepted input is refused as truncated.
pub proof fn lemma_prefix_truncated(b: Seq<u8>, n: int)
    requires
        read_verdict(b) is Ok,
        0 <= n < b.len(),
    ensures
        read_verdict(b.take(n)) == Err::<(), ReadError>(ReadError::TruncatedInput),
{
    let p = b.take(n);
    if n >= 4 {
        assert(p.take(4) =~= b.take(4));
    }
    if n >= HEADER_SIZE {
        assert(stored_count(p) == stored_count(b));
    }
}

/// An accepted input with one more byte after it is refused for trailing data.
pub proof fn lemma_trailing_byte(b: Seq<u8>, extra: u8)
    requires
        read_verdict(b) is Ok,
    ensures
        read_verdict(b.push(extra)) == Err::<(), ReadError>(ReadError::TrailingData),
{
    let p = b.push(extra);
    assert(p.take(4) =~= b.take(4));
    assert(stored_count(p) == stored_count(b));
}

} // verus!
