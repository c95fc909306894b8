//! The game's context blob: avatar and map telemetry at fixed offsets of the
//! snapshot's context region.
//!
//! The layout is the publisher's: fields in declaration order, each at its
//! natural alignment, integers little-endian. Nothing in the blob tells
//! whether it follows this layout, so decoding cannot fail; a blob of another
//! layout decodes to other values.

use vstd::prelude::*;
use crate::bytes::{read_u16_le, read_u32_le, u16_le_at, u32_le_at};

verus! {

/// Length in bytes of the context region of a snapshot.
pub const CONTEXT_LEN: usize = 256;

/// Length in bytes of the server address at the start of the blob.
pub const SERVER_ADDRESS_LEN: usize = 28;

pub const MAP_ID_OFFSET: usize = 28;

pub const MAP_TYPE_OFFSET: usize = 32;

pub const SHARD_ID_OFFSET: usize = 36;

pub const INSTANCE_OFFSET: usize = 40;

pub const BUILD_ID_OFFSET: usize = 44;

pub const UI_STATE_OFFSET: usize = 48;

pub const COMPASS_WIDTH_OFFSET: usize = 52;

pub const COMPASS_HEIGHT_OFFSET: usize = 54;

pub const COMPASS_ROTATION_OFFSET: usize = 56;

pub const PLAYER_X_OFFSET: usize = 60;

pub const PLAYER_Y_OFFSET: usize = 64;

pub const MAP_CENTER_X_OFFSET: usize = 68;

pub const MAP_CENTER_Y_OFFSET: usize = 72;

pub const MAP_SCALE_OFFSET: usize = 76;

pub const PROCESS_ID_OFFSET: usize = 80;

pub const MOUNT_INDEX_OFFSET: usize = 84;

/// Number of bytes of the context region that the blob occupies, trailing
/// padding included.
pub const BLOB_LEN: usize = 88;

/// The decoded context blob. A field that the publisher writes as a
/// single-precision number holds that number's IEEE 754 bit pattern.
#[derive(Clone, Copy, Debug)]
pub struct GuildwarsContext {
    pub server_address: [u8; SERVER_ADDRESS_LEN],
    pub map_id: u32,
    pub map_type: u32,
    pub shard_id: u32,
    pub instance: u32,
    pub build_id: u32,
    pub ui_state: u32,
    pub compass_width: u16,
    pub compass_height: u16,
    pub compass_rotation: u32,
    pub player_x: u32,
    pub player_y: u32,
    pub map_center_x: u32,
    pub map_center_y: u32,
    pub map_scale: u32,
    pub process_id: u32,
    pub mount_index: u8,
}

impl GuildwarsContext {
    /// What the blob at the start of `context` holds, field by field.
    pub open spec fn decodes(self, context: Seq<u8>) -> bool {
        &&& self.server_address@ == context.subrange(0, SERVER_ADDRESS_LEN as int)
        &&& self.map_id == u32_le_at(context, MAP_ID_OFFSET as int)
        &&& self.map_type == u32_le_at(context, MAP_TYPE_OFFSET as int)
        &&& self.shard_id == u32_le_at(context, SHARD_ID_OFFSET as int)
        &&& self.instance == u32_le_at(context, INSTANCE_OFFSET as int)
        &&& self.build_id == u32_le_at(context, BUILD_ID_OFFSET as int)
        &&& self.ui_state == u32_le_at(context, UI_STATE_OFFSET as int)
        &&& self.compass_width == u16_le_at(context, COMPASS_WIDTH_OFFSET as int)
        &&& self.compass_height == u16_le_at(context, COMPASS_HEIGHT_OFFSET as int)
        &&& self.compass_rotation == u32_le_at(context, COMPASS_ROTATION_OFFSET as int)
        &&& self.player_x == u32_le_at(context, PLAYER_X_OFFSET as int)
        &&& self.player_y == u32_le_at(context, PLAYER_Y_OFFSET as int)
        &&& self.map_center_x == u32_le_at(context, MAP_CENTER_X_OFFSET as int)
        &&& self.map_center_y == u32_le_at(context, MAP_CENTER_Y_OFFSET as int)
        &&& self.map_scale == u32_le_at(context, MAP_SCALE_OFFSET as int)
        &&& self.process_id == u32_le_at(context, PROCESS_ID_OFFSET as int)
        &&& self.mount_index == context[MOUNT_INDEX_OFFSET as int]
    }

    /// Decodes the blob at the start of a snapshot's context region.
    pub fn decode(context: &[u8; CONTEXT_LEN]) -> (decoded: GuildwarsContext)
        ensures
            decoded.decodes(context@),
    {
        let region: &[u8] = context.as_slice();
        let mut server_address: [u8; SERVER_ADDRESS_LEN] = [0u8; SERVER_ADDRESS_LEN];
        let mut i: usize = 0;
        while i < SERVER_ADDRESS_LEN
            invariant
                i <= SERVER_ADDRESS_LEN,
                region@ == context@,
                forall|k: int| 0 <= k < i ==> server_address@[k] == context@[k],
            decreases SERVER_ADDRESS_LEN - i,
        {
            server_address[i] = region[i];
            i += 1;
        }
        assert(server_address@ =~= context@.subrange(0, SERVER_ADDRESS_LEN as int));
        GuildwarsContext {
            server_address,
            map_id: read_u32_le(region, MAP_ID_OFFSET),
            map_type: read_u32_le(region, MAP_TYPE_OFFSET),
            shard_id: read_u32_le(region, SHARD_ID_OFFSET),
            instance: read_u32_le(region, INSTANCE_OFFSET),
            build_id: read_u32_le(region, BUILD_ID_OFFSET),
            ui_state: read_u32_le(region, UI_STATE_OFFSET),
            compass_width: read_u16_le(region, COMPASS_WIDTH_OFFSET),
            compass_height: read_u16_le(region, COMPASS_HEIGHT_OFFSET),
            compass_rotation: read_u32_le(region, COMPASS_ROTATION_OFFSET),
            player_x: read_u32_le(region, PLAYER_X_OFFSET),
            player_y: read_u32_le(region, PLAYER_Y_OFFSET),
            map_center_x: read_u32_le(region, MAP_CENTER_X_OFFSET),
            map_center_y: read_u32_le(region, MAP_CENTER_Y_OFFSET),
            map_scale: read_u32_le(region, MAP_SCALE_OFFSET),
            process_id: read_u32_le(region, PROCESS_ID_OFFSET),
            mount_index: region[MOUNT_INDEX_OFFSET],
        }
    }
}

/// Only the blob is read, and it fixes every field: two regions that agree
/// on their first `BLOB_LEN` bytes decode alike.
pub proof fn blob_fixes_every_field(
    first: GuildwarsContext,
    second: GuildwarsContext,
    region: Seq<u8>,
    other: Seq<u8>,
)
    requires
        first.decodes(region),
        second.decodes(other),
        region.len() >= BLOB_LEN,
        other.len() >= BLOB_LEN,
        region.subrange(0, BLOB_LEN as int) == other.subrange(0, BLOB_LEN as int),
    ensures
        first.server_address@ == second.server_address@,
        first.map_id == second.map_id,
        first.map_type == second.map_type,
        first.shard_id == second.shard_id,
        first.instance == second.instance,
        first.build_id == second.build_id,
        first.ui_state == second.ui_state,
        first.compass_width == second.compass_width,
        first.compass_height == second.compass_height,
        first.compass_rotation == second.compass_rotation,
        first.player_x == second.player_x,
        first.player_y == second.player_y,
        first.map_center_x == second.map_center_x,
        first.map_center_y == second.map_center_y,
        first.map_scale == second.map_scale,
        first.process_id == second.process_id,
        first.mount_index == second.mount_index,
{
    let blob = region.subrange(0, BLOB_LEN as int);
    let other_blob = other.subrange(0, BLOB_LEN as int);
    assert forall|i: int| 0 <= i < BLOB_LEN implies region[i] == other[i] by {
        assert(region[i] == blob[i]);
        assert(other[i] == other_blob[i]);
    }
    assert(region.subrange(0, SERVER_ADDRESS_LEN as int) =~= other.subrange(
        0,
        SERVER_ADDRESS_LEN as int,
    ));
}

} // verus!
