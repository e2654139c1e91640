use pulsedoc::choices::{
    CardNumber, Department, PericardialEffusion, RenderToString, Stenosis, TdiRelation,
    ValveLeaflets, YesNo,
};
use pulsedoc::date::{calc_age, PlainDate, PlainDateTime};
use pulsedoc::num::{
    format_int, prep_num, render_to_string, AutoValue, CalcNum, NumXNum, PreciseNum,
};

fn num(n: i64, p: u8) -> PreciseNum {
    PreciseNum::new_scaled(n, p)
}

#[test]
fn format_zero_precision_is_plain_integer() {
    assert_eq!(num(170, 0).format(), "170");
    assert_eq!(num(0, 0).format(), "0");
    assert_eq!(num(-42, 0).format(), "-42");
}

#[test]
fn format_one_decimal_uses_comma() {
    assert_eq!(num(175, 1).format(), "17,5");
    assert_eq!(num(5, 1).format(), "0,5");
    assert_eq!(num(-5, 1).format(), "-0,5");
    assert_eq!(num(30, 1).format(), "3,0");
}

#[test]
fn format_two_decimals_pads_fraction() {
    assert_eq!(num(176, 2).format(), "1,76");
    assert_eq!(num(5, 2).format(), "0,05");
    assert_eq!(num(100, 2).format(), "1,00");
    assert_eq!(num(-1234, 2).format(), "-12,34");
}

#[test]
fn format_has_exactly_precision_fraction_digits() {
    for p in 0u8..=6 {
        for n in [0i64, 1, 7, 99, 12345, -3, -12345] {
            let s = num(n, p).format();
            if p == 0 {
                assert!(!s.contains(','), "{s}");
            } else {
                let (_, frac) = s.split_once(',').expect("separator missing");
                assert_eq!(frac.chars().count() as u8, p, "{s}");
                assert!(frac.chars().all(|c| c.is_ascii_digit()));
            }
        }
    }
}

#[test]
fn prep_num_renders_with_comma() {
    assert_eq!(prep_num(&num(123, 1)), "12,3");
    assert_eq!(prep_num(&num(7, 0)), "7");
}

#[test]
fn format_int_matches_display() {
    assert_eq!(format_int(44), "44");
    assert_eq!(format_int(-1), "-1");
    assert_eq!(format_int(0), "0");
}

#[test]
fn calc_num_sentinels() {
    assert_eq!(CalcNum::PositiveInfinity.format(), "inf");
    assert_eq!(CalcNum::NegativeInfinity.format(), "-inf");
    assert_eq!(CalcNum::NotANumber.format(), "NaN");
    assert_eq!(CalcNum::Num(num(625, 1)).format(), "62,5");
}

#[test]
fn num_x_num_renders_with_times_sign() {
    let pair = NumXNum { num1: num(45, 1), num2: num(52, 1) };
    assert_eq!(pair.format(), "4,5×5,2");
}

#[test]
fn auto_value_marks_doppler_origin() {
    let auto = AutoValue { value: num(75, 0), auto: true };
    assert_eq!(auto.format(), "75 мл");
    let manual = AutoValue { value: num(80, 0), auto: false };
    assert_eq!(manual.format(), "80 мл (по допплеру)");
}

#[test]
fn compose_absent_value_is_empty() {
    assert_eq!(render_to_string(None, "PHT АР ", " мс"), "");
    assert_eq!(render_to_string(None, "", ""), "");
}

#[test]
fn compose_present_value_wraps_text() {
    assert_eq!(
        render_to_string(Some(num(17, 1)), "TAPSE: ", " см (N>=1,7 см)"),
        "TAPSE: 1,7 см (N>=1,7 см)"
    );
    assert_eq!(render_to_string(Some(num(3, 0)), "", ""), "3");
}

#[test]
fn department_labels() {
    assert_eq!(Department::Kdo.label(), "КДО");
    assert_eq!(Department::Diot.label(), "ДиОТ");
    assert_eq!(Department::Pulm.label(), "пульм");
    assert_eq!(Department::Revm.label(), "ревм");
    assert_eq!(Department::Kho.label(), "КХО");
}

#[test]
fn valve_leaflets_text_and_sentence() {
    assert_eq!(ValveLeaflets::Normal.text(), "без особенностей");
    assert_eq!(ValveLeaflets::Calcified.render_to_string(), "уплотнены, кальцинированы. ");
}

#[test]
fn stenosis_text_and_flag() {
    assert_eq!(Stenosis::No.text(), "нет");
    assert_eq!(Stenosis::Yes.text(), "есть");
    assert!(Stenosis::Yes.is_yes());
    assert!(!Stenosis::No.is_yes());
}

#[test]
fn yes_no_and_tdi_text() {
    assert_eq!(YesNo::Yes.text(), "Да");
    assert_eq!(YesNo::No.text(), "Нет");
    assert_eq!(TdiRelation::ELessThanA.text(), "e<a");
    assert_eq!(TdiRelation::EGreaterThanA.text(), "e>a");
}

#[test]
fn effusion_text() {
    assert_eq!(PericardialEffusion::NotDetected.text(), "не выявлен");
    assert!(PericardialEffusion::DetectedDetailed.render_to_string().ends_with(". "));
}

#[test]
fn card_number_lines() {
    let today = PlainDateTime {
        date: PlainDate { year: 2024, month: 6, day: 15 },
        hour: 12,
        minute: 30,
    };
    assert_eq!(CardNumber::Ib(512).render_to_string(&today), "ИБ№: 512-24-C");
    assert_eq!(CardNumber::Ak(17).render_to_string(&today), "АК№: 17-2024-А");
}

#[test]
fn date_formats_zero_padded() {
    let d = PlainDate { year: 1980, month: 1, day: 1 };
    assert_eq!(d.format(), "01.01.1980");
    let t = PlainDateTime { date: PlainDate { year: 2024, month: 6, day: 15 }, hour: 9, minute: 5 };
    assert_eq!(t.format(), "15.06.2024 09:05");
}

#[test]
fn age_by_year_and_ordinal() {
    let birthday = PlainDate { year: 1980, month: 1, day: 1 };
    let today = PlainDate { year: 2024, month: 6, day: 15 };
    assert_eq!(calc_age(&birthday, &today), 44);
    let late_birthday = PlainDate { year: 1980, month: 12, day: 31 };
    assert_eq!(calc_age(&late_birthday, &today), 43);
    let same_day = PlainDate { year: 2000, month: 6, day: 15 };
    assert_eq!(calc_age(&same_day, &today), 24);
}
