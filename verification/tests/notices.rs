use client::notice::{
    JOB_ASSASSIN, JOB_BABY_ASSASSIN, JOB_GUNSLINGER, JOB_NINJA, Rgb, TextColor,
    action_failure_notice, bgr, map_info_notice, pickup_failure_notice, weapon_refine_notice,
};

const RED: TextColor = TextColor::Red;
const CYAN: TextColor = TextColor::Cyan;
const PALE_CYAN: TextColor = TextColor::PaleCyan;
const REFINE_FAILED_COLOR: TextColor = TextColor::RefineFailed;
const REFINE_REFUSED_COLOR: TextColor = TextColor::RefineRefused;

#[test]
fn map_info_notice_pairs_each_type_with_its_line_and_colour() {
    assert_eq!(map_info_notice(0), Some((500, RED)));
    assert_eq!(map_info_notice(1), Some((501, CYAN)));
    assert_eq!(map_info_notice(2), Some((1334, CYAN)));
    assert_eq!(map_info_notice(3), Some((1335, CYAN)));
    assert_eq!(map_info_notice(4), None);
}

#[test]
fn action_failure_notice_names_the_ammunition_of_the_job() {
    assert_eq!(action_failure_notice(0, JOB_ASSASSIN), Some((242, RED)));
    assert_eq!(action_failure_notice(1, JOB_NINJA), Some((243, PALE_CYAN)));
    assert_eq!(action_failure_notice(2, JOB_NINJA), Some((244, PALE_CYAN)));

    assert_eq!(action_failure_notice(3, 3), Some((245, PALE_CYAN)));
    assert_eq!(action_failure_notice(3, JOB_ASSASSIN), Some((1040, PALE_CYAN)));
    assert_eq!(action_failure_notice(3, JOB_BABY_ASSASSIN), Some((1040, PALE_CYAN)));
    assert_eq!(action_failure_notice(3, JOB_GUNSLINGER), Some((1175, PALE_CYAN)));
    assert_eq!(action_failure_notice(3, JOB_NINJA), None);

    assert_eq!(action_failure_notice(4, JOB_NINJA), None);
}

#[test]
fn bgr_reads_blue_from_the_high_byte() {
    assert_eq!(bgr(0x00_00_00_ff), RED.rgb());
    assert_eq!(bgr(0x00_ff_ff_00), CYAN.rgb());
}

#[test]
fn pickup_failure_notice_names_the_reason_the_item_was_refused() {
    assert_eq!(pickup_failure_notice(1), Some((0x35, RED)));
    assert_eq!(pickup_failure_notice(6), Some((0x35, RED)));
    assert_eq!(pickup_failure_notice(2), Some((0x34, RED)));
    assert_eq!(pickup_failure_notice(4), Some((0xdc, RED)));
    assert_eq!(pickup_failure_notice(5), Some((0x117, RED)));

    assert_eq!(pickup_failure_notice(0), None);
    assert_eq!(pickup_failure_notice(3), None);
    assert_eq!(pickup_failure_notice(7), None);
}

#[test]
fn weapon_refine_notice_colors_the_refused_results_apart_from_the_attempted_ones() {
    assert_eq!(weapon_refine_notice(0), Some((0x38f, CYAN)));
    assert_eq!(weapon_refine_notice(1), Some((0x390, REFINE_FAILED_COLOR)));
    assert_eq!(weapon_refine_notice(2), Some((0x391, REFINE_REFUSED_COLOR)));
    assert_eq!(weapon_refine_notice(3), Some((0x392, REFINE_REFUSED_COLOR)));
    assert_eq!(weapon_refine_notice(4), None);
}

#[test]
fn named_colours_have_their_channel_bytes() {
    assert_eq!(RED.rgb(), Rgb { r: 255, g: 0, b: 0 });
    assert_eq!(CYAN.rgb(), Rgb { r: 0, g: 255, b: 255 });
    assert_eq!(PALE_CYAN.rgb(), Rgb { r: 100, g: 255, b: 255 });
    assert_eq!(REFINE_FAILED_COLOR.rgb(), Rgb { r: 0, g: 205, b: 205 });
    assert_eq!(REFINE_REFUSED_COLOR.rgb(), Rgb { r: 255, g: 200, b: 200 });
}

#[test]
fn bgr_splits_every_channel() {
    assert_eq!(bgr(0x00_12_34_56), Rgb { r: 0x56, g: 0x34, b: 0x12 });
    assert_eq!(bgr(0xff_00_00_00), Rgb { r: 0, g: 0, b: 0 });
}

#[test]
fn refused_refines_share_a_colour_unlike_attempted_ones() {
    let refused = weapon_refine_notice(2).unwrap().1;
    assert_eq!(weapon_refine_notice(3).unwrap().1, refused);
    for attempted in [0, 1] {
        assert_ne!(weapon_refine_notice(attempted).unwrap().1.rgb(), refused.rgb());
    }
}

#[test]
fn assassin_cross_equips_knives() {
    assert_eq!(action_failure_notice(3, 4013), Some((1040, PALE_CYAN)));
    assert_eq!(action_failure_notice(-1, 3), None);
}
