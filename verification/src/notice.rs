//! Message-table notices: which line of the client's message table a server
//! result code is reported with, and in which colour.
use vstd::prelude::*;

verus! {

/// Channel bytes of an opaque text colour.
#[derive(Clone, Copy, Debug, PartialEq, Eq, Structural)]
pub struct Rgb {
    pub r: u8,
    pub g: u8,
    pub b: u8,
}

/// The named text colours the notices use.
#[derive(Clone, Copy, Debug, PartialEq, Eq, Structural)]
pub enum TextColor {
    /// (255, 0, 0)
    Red,
    /// (0, 255, 255)
    Cyan,
    /// (100, 255, 255)
    PaleCyan,
    /// (0, 205, 205): a refine that was attempted and failed.
    RefineFailed,
    /// (255, 200, 200): a refine the server refused to attempt.
    RefineRefused,
}

impl TextColor {
    pub open spec fn spec_rgb(self) -> Rgb {
        match self {
            TextColor::Red => Rgb { r: 255, g: 0, b: 0 },
            TextColor::Cyan => Rgb { r: 0, g: 255, b: 255 },
            TextColor::PaleCyan => Rgb { r: 100, g: 255, b: 255 },
            TextColor::RefineFailed => Rgb { r: 0, g: 205, b: 205 },
            TextColor::RefineRefused => Rgb { r: 255, g: 200, b: 200 },
        }
    }

    /// The colour's channel bytes.
    #[verifier::when_used_as_spec(spec_rgb)]
    pub fn rgb(self) -> (c: Rgb)
        ensures
            c == self.spec_rgb(),
    {
        match self {
            TextColor::Red => Rgb { r: 255, g: 0, b: 0 },
            TextColor::Cyan => Rgb { r: 0, g: 255, b: 255 },
            TextColor::PaleCyan => Rgb { r: 100, g: 255, b: 255 },
            TextColor::RefineFailed => Rgb { r: 0, g: 205, b: 205 },
            TextColor::RefineRefused => Rgb { r: 255, g: 200, b: 200 },
        }
    }
}

/// A server colour word is laid out `0x00BBGGRR`: red in the low byte, blue in
/// the third.
pub fn bgr(color: u32) -> (c: Rgb)
    ensures
        c.r == color % 256,
        c.g == (color / 256) % 256,
        c.b == (color / 65536) % 256,
{
    Rgb { r: (color % 256) as u8, g: ((color / 256) % 256) as u8, b: ((color / 65536) % 256) as u8 }
}

pub const MSI_PLAYERS_CONNECTED: u16 = 178;

/// The message-table line telling the player the companion food is missing.
pub const MSI_NOT_EXIST_PET_FOOD: u16 = 0x24f;

pub const MSI_IMPOSSIBLE_TELEPORT_AREA: u16 = 500;

pub const MSI_IMPOSSIBLE_MEMO_AREA: u16 = 501;

pub const MSI_IMPOSSIBLE_SKILL_AREA: u16 = 1334;

pub const MSI_IMPOSSIBLE_USEITEM_AREA: u16 = 1335;

pub const MSI_ERR_ATTACK_ARROW: u16 = 242;

pub const MSI_ERR_ATTACK_WEIGHT: u16 = 243;

pub const MSI_ERR_SKILL_WEIGHT: u16 = 244;

pub const MSI_ARROW_EQUIPMENT_SUCCESS: u16 = 245;

pub const MSI_KNIFE_EQUIPMENT_SUCCESS: u16 = 1040;

pub const MSI_BULLET_EQUIPMENT_SUCCESS: u16 = 1175;

pub const MSI_CANT_GET_ITEM_BECAUSE_WEIGHT: u16 = 0x34;

pub const MSI_CANT_GET_ITEM: u16 = 0x35;

pub const MSI_CANT_GET_ITEM_BECAUSE_COUNT: u16 = 0xdc;

pub const MSI_CANT_GET_ITEM_OVERCOUNT_ONEITEM: u16 = 0x117;

pub const MSI_ITEM_REFINE_SUCCEESS: u16 = 0x38f;

pub const MSI_ITEM_REFINE_FAIL: u16 = 0x390;

pub const MSI_ITEM_REFINE_FAIL_LEVEL: u16 = 0x391;

pub const MSI_ITEM_REFINE_FAIL_MATERIAL: u16 = 0x392;

pub const MSI_CANT_MAKE_ITEM: u16 = 0x1a8;
/// "The item has been appraised."
pub const MSI_ITEM_IDENTIFY_SUCCEESS: u16 = 0x1eb;
/// "Appraisal failed."
pub const MSI_ITEM_IDENTIFY_FAIL: u16 = 0x1ec;
/// "The card has been compounded."
pub const MSI_ITEM_COMPOUNDING_SUCCEESS: u16 = 0x1ed;
/// "Compounding failed."
pub const MSI_ITEM_COMPOUNDING_FAIL: u16 = 0x1ee;
/// "Upgrade succeeded."
pub const MSI_ITEM_REFINING_SUCCEESS: u16 = 0x1f2;
/// "Upgrade failed."
pub const MSI_ITEM_REFINING_FAIL: u16 = 0x1f3;
/// "The item has been repaired."
pub const MSI_ITEM_REPAIR_SUCCEESS: u16 = 0x32d;
/// "Repair failed."
pub const MSI_ITEM_REPAIR_FAIL: u16 = 0x32e;

/// The result code of an arrow or ammunition equip that succeeded.
pub const ARROWFAIL_SUCCESS: i16 = 3;

pub const JOB_ASSASSIN: u16 = 12;

pub const JOB_GUNSLINGER: u16 = 24;

pub const JOB_NINJA: u16 = 25;

pub const JOB_ASSASSIN_CROSS: u16 = 4013;

pub const JOB_BABY_ASSASSIN: u16 = 4035;

pub open spec fn spec_map_info_notice(atype: i16) -> Option<(u16, TextColor)> {
    if atype == 0 {
        Some((MSI_IMPOSSIBLE_TELEPORT_AREA, TextColor::Red))
    } else if atype == 1 {
        Some((MSI_IMPOSSIBLE_MEMO_AREA, TextColor::Cyan))
    } else if atype == 2 {
        Some((MSI_IMPOSSIBLE_SKILL_AREA, TextColor::Cyan))
    } else if atype == 3 {
        Some((MSI_IMPOSSIBLE_USEITEM_AREA, TextColor::Cyan))
    } else {
        None
    }
}

/// The line for a "not allowed on this map" notice: teleport is red, memo,
/// skill and item use are cyan; any other type has no line.
pub fn map_info_notice(atype: i16) -> (r: Option<(u16, TextColor)>)
    ensures
        r == spec_map_info_notice(atype),
{
    match atype {
        0 => Some((MSI_IMPOSSIBLE_TELEPORT_AREA, TextColor::Red)),
        1 => Some((MSI_IMPOSSIBLE_MEMO_AREA, TextColor::Cyan)),
        2 => Some((MSI_IMPOSSIBLE_SKILL_AREA, TextColor::Cyan)),
        3 => Some((MSI_IMPOSSIBLE_USEITEM_AREA, TextColor::Cyan)),
        _ => None,
    }
}

/// The ammunition a job equips: knives for the assassin line, bullets for
/// gunslingers, none reported for ninjas, arrows for everyone else.
pub open spec fn spec_ammo_notice(job: u16) -> Option<(u16, TextColor)> {
    if job == JOB_ASSASSIN || job == JOB_ASSASSIN_CROSS || job == JOB_BABY_ASSASSIN {
        Some((MSI_KNIFE_EQUIPMENT_SUCCESS, TextColor::PaleCyan))
    } else if job == JOB_GUNSLINGER {
        Some((MSI_BULLET_EQUIPMENT_SUCCESS, TextColor::PaleCyan))
    } else if job == JOB_NINJA {
        None
    } else {
        Some((MSI_ARROW_EQUIPMENT_SUCCESS, TextColor::PaleCyan))
    }
}

pub open spec fn spec_action_failure_notice(error_code: i16, job: u16) -> Option<(u16, TextColor)> {
    if error_code == 0 {
        Some((MSI_ERR_ATTACK_ARROW, TextColor::Red))
    } else if error_code == 1 {
        Some((MSI_ERR_ATTACK_WEIGHT, TextColor::PaleCyan))
    } else if error_code == 2 {
        Some((MSI_ERR_SKILL_WEIGHT, TextColor::PaleCyan))
    } else if error_code == ARROWFAIL_SUCCESS {
        spec_ammo_notice(job)
    } else {
        None
    }
}

/// The line for an action-failure code, naming the ammunition of the player's
/// job when the code reports a successful equip.
pub fn action_failure_notice(error_code: i16, job: u16) -> (r: Option<(u16, TextColor)>)
    ensures
        r == spec_action_failure_notice(error_code, job),
{
    match error_code {
        0 => Some((MSI_ERR_ATTACK_ARROW, TextColor::Red)),
        1 => Some((MSI_ERR_ATTACK_WEIGHT, TextColor::PaleCyan)),
        2 => Some((MSI_ERR_SKILL_WEIGHT, TextColor::PaleCyan)),
        ARROWFAIL_SUCCESS => {
            if job == JOB_ASSASSIN || job == JOB_ASSASSIN_CROSS || job == JOB_BABY_ASSASSIN {
                Some((MSI_KNIFE_EQUIPMENT_SUCCESS, TextColor::PaleCyan))
            } else if job == JOB_GUNSLINGER {
                Some((MSI_BULLET_EQUIPMENT_SUCCESS, TextColor::PaleCyan))
            } else if job == JOB_NINJA {
                None
            } else {
                Some((MSI_ARROW_EQUIPMENT_SUCCESS, TextColor::PaleCyan))
            }
        },
        _ => None,
    }
}

pub open spec fn spec_pickup_failure_notice(result: u8) -> Option<(u16, TextColor)> {
    if result == 1 || result == 6 {
        Some((MSI_CANT_GET_ITEM, TextColor::Red))
    } else if result == 2 {
        Some((MSI_CANT_GET_ITEM_BECAUSE_WEIGHT, TextColor::Red))
    } else if result == 4 {
        Some((MSI_CANT_GET_ITEM_BECAUSE_COUNT, TextColor::Red))
    } else if result == 5 {
        Some((MSI_CANT_GET_ITEM_OVERCOUNT_ONEITEM, TextColor::Red))
    } else {
        None
    }
}

/// Why a picked-up item was refused, always in red; the codes without a
/// reason get no line.
pub fn pickup_failure_notice(result: u8) -> (r: Option<(u16, TextColor)>)
    ensures
        r == spec_pickup_failure_notice(result),
{
    match result {
        1 | 6 => Some((MSI_CANT_GET_ITEM, TextColor::Red)),
        2 => Some((MSI_CANT_GET_ITEM_BECAUSE_WEIGHT, TextColor::Red)),
        4 => Some((MSI_CANT_GET_ITEM_BECAUSE_COUNT, TextColor::Red)),
        5 => Some((MSI_CANT_GET_ITEM_OVERCOUNT_ONEITEM, TextColor::Red)),
        _ => None,
    }
}

pub open spec fn spec_weapon_refine_notice(result: i32) -> Option<(u16, TextColor)> {
    if result == 0 {
        Some((MSI_ITEM_REFINE_SUCCEESS, TextColor::Cyan))
    } else if result == 1 {
        Some((MSI_ITEM_REFINE_FAIL, TextColor::RefineFailed))
    } else if result == 2 {
        Some((MSI_ITEM_REFINE_FAIL_LEVEL, TextColor::RefineRefused))
    } else if result == 3 {
        Some((MSI_ITEM_REFINE_FAIL_MATERIAL, TextColor::RefineRefused))
    } else {
        None
    }
}

/// The line for a weapon-refine result: the refused results (level,
/// material) share a colour apart from the attempted-and-failed one.
pub fn weapon_refine_notice(result: i32) -> (r: Option<(u16, TextColor)>)
    ensures
        r == spec_weapon_refine_notice(result),
{
    match result {
        0 => Some((MSI_ITEM_REFINE_SUCCEESS, TextColor::Cyan)),
        1 => Some((MSI_ITEM_REFINE_FAIL, TextColor::RefineFailed)),
        2 => Some((MSI_ITEM_REFINE_FAIL_LEVEL, TextColor::RefineRefused)),
        3 => Some((MSI_ITEM_REFINE_FAIL_MATERIAL, TextColor::RefineRefused)),
        _ => None,
    }
}

/// The refine results the server refused to attempt (level, material) share
/// one colour, and it is never the colour of a refine that was attempted
/// (success or failure).
pub proof fn lemma_refine_colours_apart(attempted: i32, refused: i32, other_refused: i32)
    requires
        attempted == 0 || attempted == 1,
        refused == 2 || refused == 3,
        other_refused == 2 || other_refused == 3,
    ensures
        spec_weapon_refine_notice(refused).unwrap().1 == spec_weapon_refine_notice(
            other_refused,
        ).unwrap().1,
        spec_weapon_refine_notice(attempted).unwrap().1.spec_rgb() != spec_weapon_refine_notice(
            refused,
        ).unwrap().1.spec_rgb(),
{
}

} // verus!
