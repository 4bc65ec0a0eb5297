use vdrm_emu::cache::Ctx;

type Point = (i32, i32, i32);

fn decoded(angle: u32) -> Option<(Vec<Point>, Vec<Point>)> {
    if angle % 2 == 1 {
        None
    } else {
        let a = angle as i32;
        Some((vec![(a, 0, 0), (a, 1, 0)], vec![(a, 0, 1)]))
    }
}

fn build(total: u32) -> Ctx<u32, u8, Point> {
    Ctx::new(total, |a| a * 10, decoded, vec![(9, 9, 9)], [1u8, 2, 3])
}

#[test]
fn cache_has_one_entry_per_angle() {
    let ctx = build(5);
    assert_eq!(ctx.total_angles(), 5);
    for a in 0..5u32 {
        let e = ctx.angle_ctx(a).unwrap();
        assert_eq!(e.angle(), a);
        assert_eq!(*e.mirror(), a * 10);
    }
    assert!(ctx.angle_ctx(5).is_none());
}

#[test]
fn absent_angles_have_empty_clouds() {
    let ctx = build(4);
    let e = ctx.angle_ctx(1).unwrap();
    assert!(e.emu_pixels().is_empty());
    assert!(e.led_pixels().is_empty());
    assert_eq!(*e.mirror(), 10);
    let e = ctx.angle_ctx(2).unwrap();
    assert_eq!(*e.emu_pixels(), vec![(2, 0, 0), (2, 1, 0)]);
    assert_eq!(*e.led_pixels(), vec![(2, 0, 1)]);
}

#[test]
fn aggregates_concatenate_in_angle_order() {
    let ctx = build(5);
    assert_eq!(
        *ctx.all_emu_pixels(),
        vec![(0, 0, 0), (0, 1, 0), (2, 0, 0), (2, 1, 0), (4, 0, 0), (4, 1, 0)]
    );
    assert_eq!(*ctx.all_led_pixels(), vec![(0, 0, 1), (2, 0, 1), (4, 0, 1)]);
    let sum_emu: usize = (0..5).map(|a| ctx.angle_ctx(a).unwrap().emu_pixels().len()).sum();
    let sum_led: usize = (0..5).map(|a| ctx.angle_ctx(a).unwrap().led_pixels().len()).sum();
    assert_eq!(ctx.all_emu_pixels().len(), sum_emu);
    assert_eq!(ctx.all_led_pixels().len(), sum_led);
    assert_eq!(*ctx.all_real_pixels(), vec![(9, 9, 9)]);
    assert_eq!(*ctx.screens(), [1, 2, 3]);
}

#[test]
fn selection_picks_one_angle_or_all() {
    let ctx = build(5);
    let (mirror, emu, led) = ctx.select(None);
    assert!(mirror.is_none());
    assert_eq!(emu.len(), 6);
    assert_eq!(led.len(), 3);
    let (mirror, emu, led) = ctx.select(Some(4));
    assert_eq!(mirror, Some(&40));
    assert_eq!(*emu, vec![(4, 0, 0), (4, 1, 0)]);
    assert_eq!(*led, vec![(4, 0, 1)]);
    assert!(emu.len() + led.len() < 6 + 3);
    let (mirror, emu, led) = ctx.select(Some(3));
    assert_eq!(mirror, Some(&30));
    assert!(emu.is_empty() && led.is_empty());
}

#[test]
fn push_angle_extends_the_cache() {
    let mut ctx: Ctx<u32, u8, Point> = Ctx::empty(vec![], [0, 0, 0]);
    assert_eq!(ctx.total_angles(), 0);
    ctx.push_angle(7, None);
    ctx.push_angle(8, Some((vec![(1, 1, 1)], vec![])));
    assert_eq!(ctx.total_angles(), 2);
    assert_eq!(ctx.angle_ctx(1).unwrap().angle(), 1);
    assert_eq!(*ctx.all_emu_pixels(), vec![(1, 1, 1)]);
    assert!(ctx.all_led_pixels().is_empty());
}

#[test]
fn empty_cache_without_angles() {
    let ctx = build(0);
    assert_eq!(ctx.total_angles(), 0);
    assert!(ctx.angle_ctx(0).is_none());
    assert!(ctx.all_emu_pixels().is_empty());
}
