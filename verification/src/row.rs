//! The flat record that becomes one line of the log.

use vstd::prelude::*;
use crate::bytes::u32_le_at;
use crate::context::{
    GuildwarsContext, COMPASS_ROTATION_OFFSET, MAP_CENTER_X_OFFSET, MAP_CENTER_Y_OFFSET,
    MAP_ID_OFFSET, PLAYER_X_OFFSET, PLAYER_Y_OFFSET,
};
use crate::snapshot::Snapshot;

verus! {

/// Number of columns of the log.
pub const COLUMN_COUNT: usize = 15;

/// One row of the log. Every field but `map_id` holds the IEEE 754 bit
/// pattern of a single-precision number; the fields stand in column order.
#[derive(Clone, Copy, Debug, PartialEq, Eq, Structural)]
pub struct MumbleLinkCsv {
    pub camera_position_x: u32,
    pub camera_position_y: u32,
    pub camera_position_z: u32,
    pub camera_front_x: u32,
    pub camera_front_y: u32,
    pub camera_front_z: u32,
    pub camera_top_x: u32,
    pub camera_top_y: u32,
    pub camera_top_z: u32,
    pub player_x: u32,
    pub player_y: u32,
    pub map_center_x: u32,
    pub map_center_y: u32,
    pub compass_rotation: u32,
    pub map_id: u32,
}

/// The names of the columns, in column order.
pub open spec fn column_names() -> Seq<Seq<char>> {
    seq![
        "CameraPositionX"@,
        "CameraPositionY"@,
        "CameraPositionZ"@,
        "CameraFrontX"@,
        "CameraFrontY"@,
        "CameraFrontZ"@,
        "CameraTopX"@,
        "CameraTopY"@,
        "CameraTopZ"@,
        "PlayerX"@,
        "PlayerY"@,
        "MapCenterX"@,
        "MapCenterY"@,
        "CompassRotation"@,
        "MapId"@,
    ]
}

/// The row that a snapshot projects to: every camera component and the
/// chosen fields of the context blob, bit for bit. Each column holds the
/// component it is named after, so the y and z columns of the front and top
/// vectors are those components and not copies of x.
pub open spec fn projection(snapshot: Snapshot) -> MumbleLinkCsv {
    MumbleLinkCsv {
        camera_position_x: snapshot.camera.position@[0],
        camera_position_y: snapshot.camera.position@[1],
        camera_position_z: snapshot.camera.position@[2],
        camera_front_x: snapshot.camera.front@[0],
        camera_front_y: snapshot.camera.front@[1],
        camera_front_z: snapshot.camera.front@[2],
        camera_top_x: snapshot.camera.top@[0],
        camera_top_y: snapshot.camera.top@[1],
        camera_top_z: snapshot.camera.top@[2],
        player_x: u32_le_at(snapshot.context@, PLAYER_X_OFFSET as int) as u32,
        player_y: u32_le_at(snapshot.context@, PLAYER_Y_OFFSET as int) as u32,
        map_center_x: u32_le_at(snapshot.context@, MAP_CENTER_X_OFFSET as int) as u32,
        map_center_y: u32_le_at(snapshot.context@, MAP_CENTER_Y_OFFSET as int) as u32,
        compass_rotation: u32_le_at(snapshot.context@, COMPASS_ROTATION_OFFSET as int) as u32,
        map_id: u32_le_at(snapshot.context@, MAP_ID_OFFSET as int) as u32,
    }
}

impl MumbleLinkCsv {
    /// Projects a snapshot to its row. Every snapshot has one: nothing is
    /// converted, and no value is out of range.
    pub fn from_mumblelink_data(mumblelink_data: &Snapshot) -> (row: MumbleLinkCsv)
        ensures
            row == projection(*mumblelink_data),
    {
        let guildwars_context = GuildwarsContext::decode(&mumblelink_data.context);
        MumbleLinkCsv {
            camera_position_x: mumblelink_data.camera.position[0],
            camera_position_y: mumblelink_data.camera.position[1],
            camera_position_z: mumblelink_data.camera.position[2],
            camera_front_x: mumblelink_data.camera.front[0],
            camera_front_y: mumblelink_data.camera.front[1],
            camera_front_z: mumblelink_data.camera.front[2],
            camera_top_x: mumblelink_data.camera.top[0],
            camera_top_y: mumblelink_data.camera.top[1],
            camera_top_z: mumblelink_data.camera.top[2],
            player_x: guildwars_context.player_x,
            player_y: guildwars_context.player_y,
            map_center_x: guildwars_context.map_center_x,
            map_center_y: guildwars_context.map_center_y,
            compass_rotation: guildwars_context.compass_rotation,
            map_id: guildwars_context.map_id,
        }
    }

    /// The header record: the column names, in column order. It is the same
    /// whatever the rows are written to.
    pub fn header() -> (names: Vec<&'static str>)
        ensures
            names@.len() == COLUMN_COUNT,
            forall|i: int| 0 <= i < names@.len() ==> (#[trigger] names@[i])@ == column_names()[i],
    {
        vec![
            "CameraPositionX",
            "CameraPositionY",
            "CameraPositionZ",
            "CameraFrontX",
            "CameraFrontY",
            "CameraFrontZ",
            "CameraTopX",
            "CameraTopY",
            "CameraTopZ",
            "PlayerX",
            "PlayerY",
            "MapCenterX",
            "MapCenterY",
            "CompassRotation",
            "MapId",
        ]
    }
}

} // verus!
