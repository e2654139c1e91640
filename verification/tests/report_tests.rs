use pulsedoc::choices::{
    CardNumber, Department, PericardialEffusion, TdiRelation, ValveLeaflets, YesNo,
};
use pulsedoc::date::{PlainDate, PlainDateTime};
use pulsedoc::num::{CalcNum, NumXNum, PreciseNum};
use pulsedoc::report::{CalculatedReportData, RawReportData};

fn num(n: i64, p: u8) -> PreciseNum {
    PreciseNum::new_scaled(n, p)
}

fn sample_raw() -> RawReportData {
    RawReportData {
        name: "Иванов Иван Иванович".to_string(),
        birthday: PlainDate { year: 1980, month: 1, day: 1 },
        department: Department::Kdo,
        card_number: CardNumber::Ak(17),
        height: num(170, 0),
        weight: num(70, 0),
        pulse: num(70, 0),
        aortic_sinus_diameter: num(32, 1),
        ascending_aorta_diameter: num(34, 1),
        left_atrium: num(38, 1),
        left_atrium4: NumXNum { num1: num(45, 1), num2: num(52, 1) },
        left_atrium_volume: num(60, 0),
        right_atrium4: NumXNum { num1: num(44, 1), num2: num(50, 1) },
        right_atrium_s: num(16, 0),
        right_atrium_volume: num(40, 0),
        right_ventricle: num(26, 1),
        right_ventricle_baz: num(33, 1),
        right_ventricle_medium: None,
        right_ventricle_wall_thickness: None,
        tapse: None,
        left_ventricle_diastolic_size: num(47, 1),
        left_ventricle_systolic_size: num(31, 1),
        septum_thickness: num(11, 1),
        septum_thickness_baz: None,
        posterior_wall_thickness: num(10, 1),
        simpson_end_diastolic_volume: num(120, 0),
        simpson_end_systolic_volume: num(45, 0),
        stroke_volume: None,
        shutters_aortal: ValveLeaflets::Normal,
        opening_amplitude: num(19, 1),
        max_velocity_aortal: num(13, 1),
        max_grad_aortal: num(7, 0),
        mid_grad: None,
        s_doppler: None,
        s_planim: None,
        presh_time: None,
        vena_contracta: None,
        max_velocity_vt: None,
        max_grad_vt: None,
        shutters_mitral: ValveLeaflets::Thickened,
        calts_back_sash: YesNo::No,
        posterior_leaflet_base_calcification: YesNo::No,
        peak_e: num(80, 0),
        peak_a: num(60, 0),
        tdi_vel: TdiRelation::EGreaterThanA,
        e_sept: num(8, 0),
        e_lat: num(10, 0),
        max_velocity_mitral_valve: None,
        max_grad_mitral_valve: None,
        mid_grad_mitral_valve: None,
        max_velocity_tricuspidal_regurgitation: num(24, 1),
        max_grad_tricuspidal_regurgitation: num(25, 0),
        right_atrium_pressure_choice: None,
        pulmonary_artery: num(21, 1),
        pulmonary_artery_right_branch: None,
        pulmonary_artery_left_branch: None,
        max_velocity_in_pulmonary_artery: num(9, 1),
        max_grad_in_pulmonary_artery: num(3, 0),
        pulmonary_regurgitation_max_velocity: None,
        pulmonary_regurgitation_max_grad: None,
        vena: num(18, 1),
        effusion: PericardialEffusion::NotDetected,
    }
}

fn sample_today() -> PlainDateTime {
    PlainDateTime { date: PlainDate { year: 2024, month: 6, day: 15 }, hour: 12, minute: 30 }
}

#[test]
fn sample_is_well_formed() {
    assert!(sample_raw().check_wf());
}

#[test]
fn wf_rejects_broken_stenosis_group() {
    let mut raw = sample_raw();
    raw.s_doppler = Some(num(17, 1));
    assert!(!raw.check_wf());
    raw.mid_grad = Some(num(22, 0));
    raw.s_planim = Some(num(18, 1));
    assert!(raw.check_wf());
}

#[test]
fn wf_rejects_dependent_without_parent() {
    let mut raw = sample_raw();
    raw.vena_contracta = Some(num(4, 1));
    assert!(!raw.check_wf());

    let mut raw = sample_raw();
    raw.max_velocity_vt = Some(num(12, 1));
    raw.max_grad_vt = Some(num(6, 0));
    assert!(!raw.check_wf());
    raw.septum_thickness_baz = Some(num(12, 1));
    assert!(raw.check_wf());

    let mut raw = sample_raw();
    raw.pulmonary_artery_left_branch = Some(num(12, 1));
    assert!(!raw.check_wf());

    let mut raw = sample_raw();
    raw.pulmonary_regurgitation_max_grad = Some(num(10, 0));
    assert!(!raw.check_wf());

    let mut raw = sample_raw();
    raw.max_grad_mitral_valve = Some(num(5, 1));
    assert!(!raw.check_wf());
}

#[test]
fn wf_rejects_wrong_precision() {
    let mut raw = sample_raw();
    raw.left_atrium = num(38, 0);
    assert!(!raw.check_wf());
}

#[test]
fn derived_example_end_to_end() {
    let raw = sample_raw();
    let calc = CalculatedReportData::from_raw(&raw, sample_today());
    assert_eq!(calc.age, 44);
    assert_eq!(calc.body_surface_area.format(), "1,76");
    assert_eq!(calc.ejection_fraction.format(), "62,5");
    assert_eq!(calc.left_ventricle_mass.format(), "175,83");
    assert_eq!(calc.left_ventricle_mass_index.format(), "99,71");
    assert_eq!(calc.left_atrium_index.format(), "34,03");
    assert_eq!(calc.relative_wall_thickness.format(), "0,43");
    assert_eq!(calc.stroke_volume.format(), "75 мл");
    assert_eq!(calc.cardiac_output.format(), "5,25");
    assert_eq!(calc.cardiac_index.format(), "2,98");
    assert_eq!(calc.peak_e_div_peak_a.format(), "1,33");
    assert_eq!(calc.e_div_e_aps.format(), "8,89");
    assert_eq!(calc.pulmonary_artery_systolic_pressure.format(), "28");
    assert!(calc.pulmonary_artery_med_pressure.is_none());
}

#[test]
fn derivation_is_deterministic() {
    let raw = sample_raw();
    let a = CalculatedReportData::from_raw(&raw, sample_today());
    let b = CalculatedReportData::from_raw(&raw, sample_today());
    let ra = a.render();
    let rb = b.render();
    assert_eq!(ra.body_surface_area, rb.body_surface_area);
    assert_eq!(ra.ejection_fraction, rb.ejection_fraction);
    assert_eq!(ra.left_ventricle_mass_index, rb.left_ventricle_mass_index);
    assert_eq!(ra.cardiac_index, rb.cardiac_index);
    assert_eq!(ra.today, rb.today);
}

#[test]
fn stroke_volume_auto_flag() {
    let raw = sample_raw();
    let calc = CalculatedReportData::from_raw(&raw, sample_today());
    assert!(calc.stroke_volume.auto);
    assert_eq!(calc.stroke_volume.value, num(75, 0));

    let mut manual = sample_raw();
    manual.stroke_volume = Some(num(80, 0));
    let calc = CalculatedReportData::from_raw(&manual, sample_today());
    assert!(!calc.stroke_volume.auto);
    assert_eq!(calc.stroke_volume.value, num(80, 0));
    assert_eq!(calc.stroke_volume.format(), "80 мл (по допплеру)");
}

#[test]
fn zero_peak_a_yields_infinity() {
    let mut raw = sample_raw();
    raw.peak_a = num(0, 0);
    let calc = CalculatedReportData::from_raw(&raw, sample_today());
    assert_eq!(calc.peak_e_div_peak_a, CalcNum::PositiveInfinity);
    assert_eq!(calc.peak_e_div_peak_a.format(), "inf");
    let report = calc.render();
    assert_eq!(report.peak_e_div_peak_a, "inf");
}

#[test]
fn halves_round_away_from_zero() {
    // 1 / 8 = 0.125: the third decimal is an exact tie, and the uniform
    // rule rounds it away from zero.
    let mut raw = sample_raw();
    raw.peak_e = num(1, 0);
    raw.peak_a = num(8, 0);
    let calc = CalculatedReportData::from_raw(&raw, sample_today());
    assert_eq!(calc.peak_e_div_peak_a.format(), "0,13");

    let mut raw = sample_raw();
    raw.peak_e = num(-1, 0);
    raw.peak_a = num(8, 0);
    let calc = CalculatedReportData::from_raw(&raw, sample_today());
    assert_eq!(calc.peak_e_div_peak_a.format(), "-0,13");
}

#[test]
fn zero_over_zero_yields_nan() {
    let mut raw = sample_raw();
    raw.peak_a = num(0, 0);
    raw.peak_e = num(0, 0);
    let calc = CalculatedReportData::from_raw(&raw, sample_today());
    assert_eq!(calc.peak_e_div_peak_a.format(), "NaN");
}

#[test]
fn zero_diastolic_volume_yields_non_finite() {
    let mut raw = sample_raw();
    raw.simpson_end_diastolic_volume = num(0, 0);
    let calc = CalculatedReportData::from_raw(&raw, sample_today());
    assert_eq!(calc.ejection_fraction, CalcNum::NegativeInfinity);
    assert_eq!(calc.ejection_fraction.format(), "-inf");
}

#[test]
fn mean_pressure_mirrors_regurgitation_grad() {
    let mut raw = sample_raw();
    raw.pulmonary_regurgitation_max_velocity = Some(num(18, 1));
    raw.pulmonary_regurgitation_max_grad = Some(num(13, 0));
    assert!(raw.check_wf());
    let calc = CalculatedReportData::from_raw(&raw, sample_today());
    assert_eq!(calc.pulmonary_artery_med_pressure, Some(num(16, 0)));
    let report = calc.render();
    assert_eq!(
        report.pulmonary_artery_med_pressure_full,
        ", Ср.ДЛА 16 мм рт.ст. (до 20 мм рт.ст.)."
    );

    let absent = CalculatedReportData::from_raw(&sample_raw(), sample_today());
    assert!(absent.pulmonary_artery_med_pressure.is_none());
    assert_eq!(absent.render().pulmonary_artery_med_pressure_full, "");
}

#[test]
fn explicit_pressure_addend_overrides_default() {
    let mut raw = sample_raw();
    raw.right_atrium_pressure_choice = Some(10);
    let calc = CalculatedReportData::from_raw(&raw, sample_today());
    assert_eq!(calc.pulmonary_artery_systolic_pressure, num(35, 0));
}

#[test]
fn render_fills_report_fields() {
    let raw = sample_raw();
    let calc = CalculatedReportData::from_raw(&raw, sample_today());
    let report = calc.render();
    assert_eq!(report.name, "Иванов Иван Иванович");
    assert_eq!(report.birthday, "01.01.1980");
    assert_eq!(report.department, "КДО");
    assert_eq!(report.cardnum, "АК№: 17-2024-А");
    assert_eq!(report.age, "44");
    assert_eq!(report.height, "170");
    assert_eq!(report.weight, "70");
    assert_eq!(report.aortic_sinus_diameter, "3,2");
    assert_eq!(report.left_atrium4, "4,5×5,2");
    assert_eq!(report.shutters_aortal, "без особенностей. ");
    assert_eq!(report.shutters_mitral, "уплотнены. ");
    assert_eq!(report.tdi_vel, "e>a");
    assert_eq!(report.calts_back_sash, "Нет");
    assert_eq!(report.effusion, "не выявлен. ");
    assert_eq!(report.today, "15.06.2024 12:30");
    assert_eq!(report.tapse_full, "");
    assert_eq!(report.mid_grad_full, "");
    assert_eq!(report.stroke_volume, "75 мл");
}

#[test]
fn render_composes_optional_fragments() {
    let mut raw = sample_raw();
    raw.tapse = Some(num(17, 1));
    raw.right_ventricle_medium = Some(num(30, 1));
    raw.presh_time = Some(num(400, 0));
    raw.vena_contracta = Some(num(4, 1));
    let calc = CalculatedReportData::from_raw(&raw, sample_today());
    let report = calc.render();
    assert_eq!(report.tapse_full, "TAPSE: 1,7 см (N>=1,7 см)");
    assert_eq!(report.right_ventricle_medium_full, ", средний 3,0 см (N< 3,5 см). ");
    assert_eq!(report.presh_time_full, "PHT АР 400 мс, VC АР ");
    assert_eq!(report.vena_contracta_full, "0,4 см.");
}

#[test]
fn negative_height_propagates_nan() {
    let mut raw = sample_raw();
    raw.height = num(-170, 0);
    let calc = CalculatedReportData::from_raw(&raw, sample_today());
    assert_eq!(calc.body_surface_area.format(), "NaN");
    assert_eq!(calc.left_atrium_index.format(), "NaN");
    assert_eq!(calc.left_ventricle_mass_index.format(), "NaN");
    assert_eq!(calc.cardiac_index.format(), "NaN");
}

#[test]
fn zero_height_gives_zero_bsa_and_infinite_index() {
    let mut raw = sample_raw();
    raw.height = num(0, 0);
    let calc = CalculatedReportData::from_raw(&raw, sample_today());
    assert_eq!(calc.body_surface_area.format(), "0,00");
    assert_eq!(calc.left_atrium_index.format(), "inf");
}
