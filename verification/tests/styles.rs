use easyx::color::Color;
use easyx::enums::{BkMode, PolyFillMode, Rop2};
use easyx::fillstyle::{FillStyle, Hatch};
use easyx::image::{ImageError, Rop};
use easyx::input::InputBox;
use easyx::linestyle::{EndCapStyle, InnerStyle, JoinStyle, LineStyle};
use easyx::logfont::LogFont;
use easyx::surface::{FloodFillType, InitFlags, RECT};

#[test]
fn color_packs_components() {
    let c = Color::new(255, 165, 0);
    assert_eq!(c.as_colorref(), 0xFFA500);
    assert_eq!(c.r(), 255);
    assert_eq!(c.g(), 165);
    assert_eq!(c.b(), 0);
}

#[test]
fn color_round_trips_through_colorref() {
    let c = Color::from_colorref(0x123456);
    assert_eq!(c.as_colorref(), 0x123456);
    assert_eq!(c.r(), 0x12);
    assert_eq!(c.g(), 0x34);
    assert_eq!(c.b(), 0x56);
}

#[test]
fn palette_colors_have_their_classic_values() {
    assert_eq!(Color::black().as_colorref(), 0x000000);
    assert_eq!(Color::blue().as_colorref(), 0xAA0000);
    assert_eq!(Color::green().as_colorref(), 0x00AA00);
    assert_eq!(Color::cyan().as_colorref(), 0xAAAA00);
    assert_eq!(Color::red().as_colorref(), 0x0000AA);
    assert_eq!(Color::magenta().as_colorref(), 0xAA00AA);
    assert_eq!(Color::brown().as_colorref(), 0x0055AA);
    assert_eq!(Color::light_gray().as_colorref(), 0xAAAAAA);
    assert_eq!(Color::dark_gray().as_colorref(), 0x555555);
    assert_eq!(Color::light_blue().as_colorref(), 0xFF5555);
    assert_eq!(Color::light_green().as_colorref(), 0x55FF55);
    assert_eq!(Color::light_cyan().as_colorref(), 0xFFFF55);
    assert_eq!(Color::light_red().as_colorref(), 0x5555FF);
    assert_eq!(Color::light_magenta().as_colorref(), 0xFF55FF);
    assert_eq!(Color::yellow().as_colorref(), 0x55FFFF);
    assert_eq!(Color::white().as_colorref(), 0xFFFFFF);
}

#[test]
fn line_style_constructors_and_thickness() {
    let mut l = LineStyle::solid(2);
    assert_eq!(l.thickness(), 2);
    assert_eq!(l.style_value(), 0);
    l.set_thickness(5);
    assert_eq!(l.thickness(), 5);

    assert_eq!(LineStyle::dashed(1).style_value(), 1);
    assert_eq!(LineStyle::dotted(1).style_value(), 2);
    assert_eq!(LineStyle::dash_dot(1).style_value(), 3);
    assert_eq!(LineStyle::dash_dot_dot(1).style_value(), 4);
    assert_eq!(LineStyle::null(1).style_value(), 5);
    assert_eq!(LineStyle::user(1, vec![10, 5]).style_value(), 7);
}

#[test]
fn cap_and_join_styles_pack_into_the_style_word() {
    let mut l = LineStyle::solid(3);
    assert_eq!(l.get_cap_style(), EndCapStyle::Round);
    assert_eq!(l.get_join_style(), JoinStyle::Round);

    l.set_cap_style(EndCapStyle::Square);
    assert_eq!(l.get_cap_style(), EndCapStyle::Square);
    assert_eq!(l.style_value(), 0x100);

    l.set_join_style(JoinStyle::Miter);
    assert_eq!(l.get_join_style(), JoinStyle::Miter);
    assert_eq!(l.get_cap_style(), EndCapStyle::Square);
    assert_eq!(l.style_value(), 0x2100);

    l.set_cap_style(EndCapStyle::Flat);
    assert_eq!(l.get_cap_style(), EndCapStyle::Flat);
    assert_eq!(l.get_join_style(), JoinStyle::Miter);
    assert_eq!(l.style_value(), 0x2200);
}

#[test]
fn user_style_flattens_stroke_gap_pairs() {
    let mut l = LineStyle::user(2, vec![5, 3]);
    assert_eq!(l.user_style(), Some(&[5, 3][..]));
    l.set_user_style(vec![(10, 5), (3, 2)]);
    assert_eq!(l.user_style(), Some(&[10, 5, 3, 2][..]));

    let mut s = LineStyle::solid(2);
    assert_eq!(s.user_style(), None);
    s.set_user_style(vec![(1, 1)]);
    assert_eq!(s.user_style(), None);
    assert_eq!(s, LineStyle::solid(2));
}

#[test]
fn inner_style_carries_the_flag_bits() {
    let mut l = LineStyle::dashed(1);
    l.set_cap_style(EndCapStyle::Flat);
    assert_eq!(l.style_value(), 0x201);
    let user = LineStyle::user(1, vec![4]);
    match user.user_style() {
        Some(sl) => assert_eq!(sl, &[4]),
        None => panic!("a user line style must expose its pattern"),
    }
    let _ = InnerStyle::Solid(0);
}

#[test]
fn device_mode_codes() {
    assert_eq!(PolyFillMode::alternate().code(), 1);
    assert_eq!(PolyFillMode::winding().code(), 2);
    assert_eq!(PolyFillMode::from_code(2), Some(PolyFillMode::Winding));
    assert_eq!(PolyFillMode::from_code(9), None);

    assert_eq!(BkMode::opaque().code(), 2);
    assert_eq!(BkMode::transparent().code(), 1);
    assert_eq!(BkMode::from_code(1), Some(BkMode::Transparent));
    assert_eq!(BkMode::from_code(0), None);
}

#[test]
fn rop2_codes_cover_the_sixteen_operations() {
    let all = [
        (Rop2::black(), 1),
        (Rop2::not_merge_pen(), 2),
        (Rop2::mask_not_pen(), 3),
        (Rop2::not_copy_pen(), 4),
        (Rop2::mask_pen_not(), 5),
        (Rop2::not(), 6),
        (Rop2::xor_pen(), 7),
        (Rop2::not_mask_pen(), 8),
        (Rop2::mask_pen(), 9),
        (Rop2::not_xor_pen(), 10),
        (Rop2::nop(), 11),
        (Rop2::merge_not_pen(), 12),
        (Rop2::copy_pen(), 13),
        (Rop2::merge_pen_not(), 14),
        (Rop2::merge_pen(), 15),
        (Rop2::white(), 16),
    ];
    for (m, code) in all {
        assert_eq!(m.code(), code);
        assert_eq!(Rop2::from_code(code), Some(m));
    }
    assert_eq!(Rop2::from_code(0), None);
    assert_eq!(Rop2::from_code(17), None);
}

#[test]
fn image_rop_codes_round_trip() {
    assert_eq!(Rop::SrcCopy.as_u32(), 0x00CC0020);
    assert_eq!(Rop::Blackness.as_u32(), 0x00000042);
    assert_eq!(Rop::from_u32(0x00CC0020), Rop::SrcCopy);
    assert_eq!(Rop::from_u32(0x12345678), Rop::Other(0x12345678));
    for code in [0x00000042u32, 0x001100A6, 0x00F00021, 0xABCDEF01] {
        assert_eq!(Rop::from_u32(code).as_u32(), code);
    }
}

#[test]
fn image_errors_decode_from_native_codes() {
    assert_eq!(ImageError::from_code(2), ImageError::FileNotFound);
    assert_eq!(ImageError::from_code(5007), ImageError::ResourceNotFound);
    assert_eq!(ImageError::from_code(-1), ImageError::Unknown(-1));
    assert_eq!(ImageError::from_code(404), ImageError::Unknown(404));
}

#[test]
fn hatch_codes_and_fill_styles() {
    assert_eq!(Hatch::Horizontal.code(), 0);
    assert_eq!(Hatch::DiagCross.code(), 5);
    assert_eq!(Hatch::from_code(3), Some(Hatch::BDiagonal));
    assert_eq!(Hatch::from_code(6), None);

    assert_eq!(FillStyle::solid().get_style(), 0);
    assert_eq!(FillStyle::null().get_style(), 1);
    assert_eq!(FillStyle::hatched(Hatch::Cross).get_style(), 2);
    assert_eq!(FillStyle::pattern8x8([0xAA; 8]).get_style(), 3);

    let mut f = FillStyle::hatched(Hatch::Vertical);
    assert_eq!(f.as_hatch(), Some(&Hatch::Vertical));
    f.set_hatch(Hatch::Cross);
    assert_eq!(f.as_hatch(), Some(&Hatch::Cross));

    let mut s = FillStyle::solid();
    assert_eq!(s.as_hatch(), None);
    s.set_hatch(Hatch::Cross);
    assert_eq!(s, FillStyle::Solid);
}

#[test]
fn surface_types() {
    let r = RECT::new(1, 2, 3, 4);
    assert_eq!((r.left, r.top, r.right, r.bottom), (1, 2, 3, 4));

    assert_eq!(FloodFillType::Border.code(), 0);
    assert_eq!(FloodFillType::Surface.code(), 1);

    assert_eq!(InitFlags::none().bits(), 0);
    let f = InitFlags { show_console: true, no_close: false, no_minimize: true, dbl_clks: true };
    assert_eq!(f.bits(), 1 | 4 | 8);
}

#[test]
fn logfont_defaults() {
    let f = LogFont::new(-24, 0, String::from("Arial"));
    assert_eq!(f.height, -24);
    assert_eq!(f.width, 0);
    assert_eq!(f.weight, 0);
    assert!(!f.italic && !f.underline && !f.strike_out);
    assert_eq!(f.face_name, "Arial");
}

#[test]
fn input_box_builders_set_their_fields() {
    let b = InputBox::new(64, "Your name:");
    assert_eq!(b.max_count(), 64);
    assert_eq!(b.prompt(), "Your name:");
    assert!(b.title().is_none());
    assert!(b.default_text().is_none());
    assert_eq!((b.width(), b.height()), (0, 0));
    assert!(b.only_ok());

    let b = b
        .with_title("Hello")
        .with_default_text("world")
        .with_width(300)
        .with_height(120)
        .with_only_ok(false);
    assert_eq!(b.max_count(), 64);
    assert_eq!(b.prompt(), "Your name:");
    assert_eq!(b.title(), Some(&String::from("Hello")));
    assert_eq!(b.default_text(), Some(&String::from("world")));
    assert_eq!((b.width(), b.height()), (300, 120));
    assert!(!b.only_ok());
}

#[test]
fn device_words_decode_back_into_line_styles() {
    let l = LineStyle::from_device(0x2101, 3, Vec::new()).unwrap();
    assert_eq!(l.style_value(), 0x2101);
    assert_eq!(l.thickness(), 3);
    assert_eq!(l.get_cap_style(), EndCapStyle::Square);
    assert_eq!(l.get_join_style(), JoinStyle::Miter);

    let u = LineStyle::from_device(7, 1, vec![8, 2]).unwrap();
    assert_eq!(u.user_style(), Some(&[8, 2][..]));
    assert!(LineStyle::from_device(6, 1, Vec::new()).is_none());
    assert!(LineStyle::from_device(9, 1, Vec::new()).is_none());
}

#[test]
fn device_codes_decode_back_into_fill_styles() {
    assert_eq!(FillStyle::from_device(0, 0), Some(FillStyle::Solid));
    assert_eq!(FillStyle::from_device(1, 0), Some(FillStyle::Null));
    assert_eq!(
        FillStyle::from_device(2, 4),
        Some(FillStyle::Hatched(Hatch::Cross))
    );
    assert_eq!(FillStyle::from_device(2, 6), None);
    assert_eq!(FillStyle::from_device(3, 0), None);
    assert_eq!(FillStyle::from_device(5, 0), None);
}
