use tonestep::envelope::gain_for;
use tonestep::{calculate_volume_info, VolumeInfo, VolumeTimings};

#[test]
fn window_instants_have_their_phases() {
    let t = VolumeTimings::new(3000, 5000, 1000, 2500);
    assert_eq!(
        (3000, 4000, 9000, 11500),
        (t.fade_in_start, t.full_volume_start, t.fade_out_start, t.end_time)
    );
    assert_eq!(VolumeInfo::Silent, calculate_volume_info(2999, &t));
    assert_eq!(VolumeInfo::FadeIn, calculate_volume_info(3000, &t));
    assert_eq!(VolumeInfo::FadeIn, calculate_volume_info(3999, &t));
    assert_eq!(VolumeInfo::FullVolume, calculate_volume_info(4000, &t));
    assert_eq!(VolumeInfo::FullVolume, calculate_volume_info(8999, &t));
    assert_eq!(VolumeInfo::FadeOut, calculate_volume_info(9000, &t));
    assert_eq!(VolumeInfo::FadeOut, calculate_volume_info(11499, &t));
    assert_eq!(VolumeInfo::Silent, calculate_volume_info(11500, &t));
    assert_eq!(VolumeInfo::Silent, calculate_volume_info(u64::MAX, &t));
}

#[test]
fn empty_full_volume_span() {
    let t = VolumeTimings::new(0, 0, 2000, 2000);
    assert_eq!(VolumeInfo::FadeIn, calculate_volume_info(1999, &t));
    assert_eq!(VolumeInfo::FadeOut, calculate_volume_info(2000, &t));
}

#[test]
fn fade_gains() {
    let t = VolumeTimings::new(2000, 4000, 2000, 2000);
    let g = gain_for(VolumeInfo::FadeIn, 2500, &t);
    assert_eq!((500, 2000), (g.num, g.den));
    let g = gain_for(VolumeInfo::FadeOut, 8000, &t);
    assert_eq!((2000, 2000), (g.num, g.den));
    let g = gain_for(VolumeInfo::FadeOut, 9500, &t);
    assert_eq!((500, 2000), (g.num, g.den));
    let g = gain_for(VolumeInfo::FullVolume, 5000, &t);
    assert_eq!((1, 1), (g.num, g.den));
    let g = gain_for(VolumeInfo::Silent, 50000, &t);
    assert_eq!((0, 1), (g.num, g.den));
}
