//! The report pipeline: the complete set of operator-supplied
//! measurements with their inter-field dependency rules, the derived
//! clinical indices, and the flat mapping of formatted text fragments
//! that fills the document template.

use vstd::prelude::*;
use vstd::string::StringExecFns;

use crate::choices::{
    CardNumber, Department, PericardialEffusion, RenderToString, TdiRelation, ValveLeaflets, YesNo,
};
use crate::date::{calc_age, spec_age, PlainDate, PlainDateTime};
use crate::num::{
    div_calc, format_int, opt_inv, render_to_string, round_div, spec_compose, spec_decimal,
    spec_div_calc, spec_ratio_int, AutoValue, CalcNum, NumXNum, PreciseNum,
};
use crate::power::{bsa_scaled, spec_bsa_scaled};

verus! {

/// A required measurement with the declared precision and a mantissa the
/// 128-bit formula arithmetic accommodates.
pub open spec fn p_ok(v: PreciseNum, p: int) -> bool {
    v.precision == p && -1_000_000_000 <= v.num <= 1_000_000_000
}

/// An optional measurement: absent, or as `p_ok`.
pub open spec fn p_opt_ok(v: Option<PreciseNum>, p: int) -> bool {
    match v {
        Option::Some(x) => p_ok(x, p),
        Option::None => true,
    }
}

fn p_ok_exec(v: &PreciseNum, p: u8) -> (b: bool)
    ensures
        b == p_ok(*v, p as int),
{
    v.precision == p && -1_000_000_000 <= v.num && v.num <= 1_000_000_000
}

fn p_opt_ok_exec(v: &Option<PreciseNum>, p: u8) -> (b: bool)
    ensures
        b == p_opt_ok(*v, p as int),
{
    match v {
        Option::Some(x) => p_ok_exec(x, p),
        Option::None => true,
    }
}

/// Every value the operator supplies for one report, with the
/// conditional fields that depend on earlier answers.
///
/// The aortic-stenosis gradient and the two orifice areas are collected
/// only when stenosis was marked present, so the three are present or
/// absent together; each remaining dependent field mirrors the presence
/// of its parent as `wf` states.
#[derive(Clone, Debug)]
pub struct RawReportData {
    pub name: String,
    pub birthday: PlainDate,
    pub department: Department,
    pub card_number: CardNumber,
    pub height: PreciseNum,
    pub weight: PreciseNum,
    pub pulse: PreciseNum,
    pub aortic_sinus_diameter: PreciseNum,
    pub ascending_aorta_diameter: PreciseNum,
    pub left_atrium: PreciseNum,
    pub left_atrium4: NumXNum,
    pub left_atrium_volume: PreciseNum,
    pub right_atrium4: NumXNum,
    pub right_atrium_s: PreciseNum,
    pub right_atrium_volume: PreciseNum,
    pub right_ventricle: PreciseNum,
    pub right_ventricle_baz: PreciseNum,
    pub right_ventricle_medium: Option<PreciseNum>,
    pub right_ventricle_wall_thickness: Option<PreciseNum>,
    pub tapse: Option<PreciseNum>,
    pub left_ventricle_diastolic_size: PreciseNum,
    pub left_ventricle_systolic_size: PreciseNum,
    pub septum_thickness: PreciseNum,
    pub septum_thickness_baz: Option<PreciseNum>,
    pub posterior_wall_thickness: PreciseNum,
    pub simpson_end_diastolic_volume: PreciseNum,
    pub simpson_end_systolic_volume: PreciseNum,
    pub stroke_volume: Option<PreciseNum>,
    pub shutters_aortal: ValveLeaflets,
    pub opening_amplitude: PreciseNum,
    pub max_velocity_aortal: PreciseNum,
    pub max_grad_aortal: PreciseNum,
    pub mid_grad: Option<PreciseNum>,
    pub s_doppler: Option<PreciseNum>,
    pub s_planim: Option<PreciseNum>,
    pub presh_time: Option<PreciseNum>,
    pub vena_contracta: Option<PreciseNum>,
    pub max_velocity_vt: Option<PreciseNum>,
    pub max_grad_vt: Option<PreciseNum>,
    pub shutters_mitral: ValveLeaflets,
    pub calts_back_sash: YesNo,
    pub posterior_leaflet_base_calcification: YesNo,
    pub peak_e: PreciseNum,
    pub peak_a: PreciseNum,
    pub tdi_vel: TdiRelation,
    pub e_sept: PreciseNum,
    pub e_lat: PreciseNum,
    pub max_velocity_mitral_valve: Option<PreciseNum>,
    pub max_grad_mitral_valve: Option<PreciseNum>,
    pub mid_grad_mitral_valve: Option<PreciseNum>,
    pub max_velocity_tricuspidal_regurgitation: PreciseNum,
    pub max_grad_tricuspidal_regurgitation: PreciseNum,
    pub right_atrium_pressure_choice: Option<i64>,
    pub pulmonary_artery: PreciseNum,
    pub pulmonary_artery_right_branch: Option<PreciseNum>,
    pub pulmonary_artery_left_branch: Option<PreciseNum>,
    pub max_velocity_in_pulmonary_artery: PreciseNum,
    pub max_grad_in_pulmonary_artery: PreciseNum,
    pub pulmonary_regurgitation_max_velocity: Option<PreciseNum>,
    pub pulmonary_regurgitation_max_grad: Option<PreciseNum>,
    pub vena: PreciseNum,
    pub effusion: PericardialEffusion,
}

impl RawReportData {
    /// The field dependency table and the per-field precisions.
    ///
    /// The height and weight mantissas are whole units and stay within
    /// three digits so the fixed-point power chain fits in 128 bits; the
    /// other mantissas stay within `10^9` for the same reason.
    pub open spec fn wf(self) -> bool {
        &&& self.birthday.wf()
        &&& self.height.precision == 0 && -999 <= self.height.num <= 999
        &&& self.weight.precision == 0 && -999 <= self.weight.num <= 999
        &&& p_ok(self.pulse, 0)
        &&& p_ok(self.aortic_sinus_diameter, 1)
        &&& p_ok(self.ascending_aorta_diameter, 1)
        &&& p_ok(self.left_atrium, 1)
        &&& p_ok(self.left_atrium4.num1, 1) && p_ok(self.left_atrium4.num2, 1)
        &&& p_ok(self.left_atrium_volume, 0)
        &&& p_ok(self.right_atrium4.num1, 1) && p_ok(self.right_atrium4.num2, 1)
        &&& p_ok(self.right_atrium_s, 0)
        &&& p_ok(self.right_atrium_volume, 0)
        &&& p_ok(self.right_ventricle, 1)
        &&& p_ok(self.right_ventricle_baz, 1)
        &&& p_opt_ok(self.right_ventricle_medium, 1)
        &&& p_opt_ok(self.right_ventricle_wall_thickness, 1)
        &&& p_opt_ok(self.tapse, 1)
        &&& p_ok(self.left_ventricle_diastolic_size, 1)
        &&& p_ok(self.left_ventricle_systolic_size, 1)
        &&& p_ok(self.septum_thickness, 1)
        &&& p_opt_ok(self.septum_thickness_baz, 1)
        &&& p_ok(self.posterior_wall_thickness, 1)
        &&& p_ok(self.simpson_end_diastolic_volume, 0)
        &&& p_ok(self.simpson_end_systolic_volume, 0)
        &&& p_opt_ok(self.stroke_volume, 0)
        &&& p_ok(self.opening_amplitude, 1)
        &&& p_ok(self.max_velocity_aortal, 1)
        &&& p_ok(self.max_grad_aortal, 0)
        &&& p_opt_ok(self.mid_grad, 0)
        &&& p_opt_ok(self.s_doppler, 1)
        &&& p_opt_ok(self.s_planim, 1)
        &&& p_opt_ok(self.presh_time, 0)
        &&& p_opt_ok(self.vena_contracta, 1)
        &&& p_opt_ok(self.max_velocity_vt, 1)
        &&& p_opt_ok(self.max_grad_vt, 0)
        &&& p_ok(self.peak_e, 0)
        &&& p_ok(self.peak_a, 0)
        &&& p_ok(self.e_sept, 0)
        &&& p_ok(self.e_lat, 0)
        &&& p_opt_ok(self.max_velocity_mitral_valve, 1)
        &&& p_opt_ok(self.max_grad_mitral_valve, 1)
        &&& p_opt_ok(self.mid_grad_mitral_valve, 1)
        &&& p_ok(self.max_velocity_tricuspidal_regurgitation, 1)
        &&& p_ok(self.max_grad_tricuspidal_regurgitation, 0)
        &&& (match self.right_atrium_pressure_choice {
            Option::Some(c) => -1_000_000_000 <= c <= 1_000_000_000,
            Option::None => true,
        })
        &&& p_ok(self.pulmonary_artery, 1)
        &&& p_opt_ok(self.pulmonary_artery_right_branch, 1)
        &&& p_opt_ok(self.pulmonary_artery_left_branch, 1)
        &&& p_ok(self.max_velocity_in_pulmonary_artery, 1)
        &&& p_ok(self.max_grad_in_pulmonary_artery, 0)
        &&& p_opt_ok(self.pulmonary_regurgitation_max_velocity, 1)
        &&& p_opt_ok(self.pulmonary_regurgitation_max_grad, 0)
        &&& p_ok(self.vena, 1)
        &&& ((self.mid_grad is Some) <==> (self.s_doppler is Some))
        &&& ((self.mid_grad is Some) <==> (self.s_planim is Some))
        &&& ((self.vena_contracta is Some) <==> (self.presh_time is Some))
        &&& ((self.max_velocity_vt is Some) ==> (self.septum_thickness_baz is Some))
        &&& ((self.max_grad_vt is Some) <==> (self.max_velocity_vt is Some))
        &&& ((self.max_grad_mitral_valve is Some) <==> (self.max_velocity_mitral_valve is Some))
        &&& ((self.mid_grad_mitral_valve is Some) <==> (self.max_velocity_mitral_valve is Some))
        &&& ((self.pulmonary_artery_left_branch is Some) <==> (
        self.pulmonary_artery_right_branch is Some))
        &&& ((self.pulmonary_regurgitation_max_grad is Some) <==> (
        self.pulmonary_regurgitation_max_velocity is Some))
    }

    /// Decides `wf`, so that an unverified caller can test the contract
    /// before handing the data to the pipeline.
    pub fn check_wf(&self) -> (b: bool)
        ensures
            b == self.wf(),
    {
        let mut ok: bool = crate::date::valid_date(
            self.birthday.year,
            self.birthday.month,
            self.birthday.day,
        );
        ok = ok && self.height.precision == 0 && -999 <= self.height.num && self.height.num <= 999;
        ok = ok && self.weight.precision == 0 && -999 <= self.weight.num && self.weight.num <= 999;
        ok = ok && p_ok_exec(&self.pulse, 0);
        ok = ok && p_ok_exec(&self.aortic_sinus_diameter, 1);
        ok = ok && p_ok_exec(&self.ascending_aorta_diameter, 1);
        ok = ok && p_ok_exec(&self.left_atrium, 1);
        ok = ok && p_ok_exec(&self.left_atrium4.num1, 1) && p_ok_exec(&self.left_atrium4.num2, 1);
        ok = ok && p_ok_exec(&self.left_atrium_volume, 0);
        ok = ok && p_ok_exec(&self.right_atrium4.num1, 1) && p_ok_exec(&self.right_atrium4.num2, 1);
        ok = ok && p_ok_exec(&self.right_atrium_s, 0);
        ok = ok && p_ok_exec(&self.right_atrium_volume, 0);
        ok = ok && p_ok_exec(&self.right_ventricle, 1);
        ok = ok && p_ok_exec(&self.right_ventricle_baz, 1);
        ok = ok && p_opt_ok_exec(&self.right_ventricle_medium, 1);
        ok = ok && p_opt_ok_exec(&self.right_ventricle_wall_thickness, 1);
        ok = ok && p_opt_ok_exec(&self.tapse, 1);
        ok = ok && p_ok_exec(&self.left_ventricle_diastolic_size, 1);
        ok = ok && p_ok_exec(&self.left_ventricle_systolic_size, 1);
        ok = ok && p_ok_exec(&self.septum_thickness, 1);
        ok = ok && p_opt_ok_exec(&self.septum_thickness_baz, 1);
        ok = ok && p_ok_exec(&self.posterior_wall_thickness, 1);
        ok = ok && p_ok_exec(&self.simpson_end_diastolic_volume, 0);
        ok = ok && p_ok_exec(&self.simpson_end_systolic_volume, 0);
        ok = ok && p_opt_ok_exec(&self.stroke_volume, 0);
        ok = ok && p_ok_exec(&self.opening_amplitude, 1);
        ok = ok && p_ok_exec(&self.max_velocity_aortal, 1);
        ok = ok && p_ok_exec(&self.max_grad_aortal, 0);
        ok = ok && p_opt_ok_exec(&self.mid_grad, 0);
        ok = ok && p_opt_ok_exec(&self.s_doppler, 1);
        ok = ok && p_opt_ok_exec(&self.s_planim, 1);
        ok = ok && p_opt_ok_exec(&self.presh_time, 0);
        ok = ok && p_opt_ok_exec(&self.vena_contracta, 1);
        ok = ok && p_opt_ok_exec(&self.max_velocity_vt, 1);
        ok = ok && p_opt_ok_exec(&self.max_grad_vt, 0);
        ok = ok && p_ok_exec(&self.peak_e, 0);
        ok = ok && p_ok_exec(&self.peak_a, 0);
        ok = ok && p_ok_exec(&self.e_sept, 0);
        ok = ok && p_ok_exec(&self.e_lat, 0);
        ok = ok && p_opt_ok_exec(&self.max_velocity_mitral_valve, 1);
        ok = ok && p_opt_ok_exec(&self.max_grad_mitral_valve, 1);
        ok = ok && p_opt_ok_exec(&self.mid_grad_mitral_valve, 1);
        ok = ok && p_ok_exec(&self.max_velocity_tricuspidal_regurgitation, 1);
        ok = ok && p_ok_exec(&self.max_grad_tricuspidal_regurgitation, 0);
        ok = ok && (match self.right_atrium_pressure_choice {
            Option::Some(c) => -1_000_000_000 <= c && c <= 1_000_000_000,
            Option::None => true,
        });
        ok = ok && p_ok_exec(&self.pulmonary_artery, 1);
        ok = ok && p_opt_ok_exec(&self.pulmonary_artery_right_branch, 1);
        ok = ok && p_opt_ok_exec(&self.pulmonary_artery_left_branch, 1);
        ok = ok && p_ok_exec(&self.max_velocity_in_pulmonary_artery, 1);
        ok = ok && p_ok_exec(&self.max_grad_in_pulmonary_artery, 0);
        ok = ok && p_opt_ok_exec(&self.pulmonary_regurgitation_max_velocity, 1);
        ok = ok && p_opt_ok_exec(&self.pulmonary_regurgitation_max_grad, 0);
        ok = ok && p_ok_exec(&self.vena, 1);
        ok = ok && (self.mid_grad.is_some() == self.s_doppler.is_some());
        ok = ok && (self.mid_grad.is_some() == self.s_planim.is_some());
        ok = ok && (self.vena_contracta.is_some() == self.presh_time.is_some());
        ok = ok && (!self.max_velocity_vt.is_some() || self.septum_thickness_baz.is_some());
        ok = ok && (self.max_grad_vt.is_some() == self.max_velocity_vt.is_some());
        ok = ok && (self.max_grad_mitral_valve.is_some()
            == self.max_velocity_mitral_valve.is_some());
        ok = ok && (self.mid_grad_mitral_valve.is_some()
            == self.max_velocity_mitral_valve.is_some());
        ok = ok && (self.pulmonary_artery_left_branch.is_some()
            == self.pulmonary_artery_right_branch.is_some());
        ok = ok && (self.pulmonary_regurgitation_max_grad.is_some()
            == self.pulmonary_regurgitation_max_velocity.is_some());
        ok
    }
}

/// The measurements together with every derived clinical index.
#[derive(Clone, Debug)]
pub struct CalculatedReportData {
    pub name: String,
    pub birthday: PlainDate,
    pub department: Department,
    pub cardnum: CardNumber,
    pub height: PreciseNum,
    pub weight: PreciseNum,
    pub pulse: PreciseNum,
    pub aortic_sinus_diameter: PreciseNum,
    pub left_ventricle_diastolic_size: PreciseNum,
    pub left_ventricle_systolic_size: PreciseNum,
    pub septum_thickness: PreciseNum,
    pub posterior_wall_thickness: PreciseNum,
    pub simpson_end_diastolic_volume: PreciseNum,
    pub simpson_end_systolic_volume: PreciseNum,
    pub ascending_aorta_diameter: PreciseNum,
    pub left_atrium: PreciseNum,
    pub left_atrium4: NumXNum,
    pub left_atrium_volume: PreciseNum,
    pub right_atrium_s: PreciseNum,
    pub right_atrium4: NumXNum,
    pub right_atrium_volume: PreciseNum,
    pub right_ventricle: PreciseNum,
    pub right_ventricle_baz: PreciseNum,
    pub right_ventricle_medium: Option<PreciseNum>,
    pub right_ventricle_wall_thickness: Option<PreciseNum>,
    pub tapse: Option<PreciseNum>,
    pub septum_thickness_baz: Option<PreciseNum>,
    pub shutters_aortal: ValveLeaflets,
    pub opening_amplitude: PreciseNum,
    pub max_velocity: PreciseNum,
    pub max_grad: PreciseNum,
    pub mid_grad: Option<PreciseNum>,
    pub s_doppler: Option<PreciseNum>,
    pub s_planim: Option<PreciseNum>,
    pub presh_time: Option<PreciseNum>,
    pub vena_contracta: Option<PreciseNum>,
    pub max_velocity_vt: Option<PreciseNum>,
    pub max_grad_vt: Option<PreciseNum>,
    pub shutters_mitral: ValveLeaflets,
    pub peak_e: PreciseNum,
    pub peak_a: PreciseNum,
    pub tdi_vel: TdiRelation,
    pub e_sept: PreciseNum,
    pub e_lat: PreciseNum,
    pub max_velocity_mitral_valve: Option<PreciseNum>,
    pub max_grad_mitral_valve: Option<PreciseNum>,
    pub mid_grad_mitral_valve: Option<PreciseNum>,
    pub calts_back_sash: YesNo,
    pub posterior_leaflet_base_calcification: YesNo,
    pub max_velocity_tricuspidal_regurgitation: PreciseNum,
    pub pulmonary_artery: PreciseNum,
    pub max_grad_tricuspidal_regurgitation: PreciseNum,
    pub pulmonary_artery_right_branch: Option<PreciseNum>,
    pub pulmonary_artery_left_branch: Option<PreciseNum>,
    pub max_velocity_in_pulmonary_artery: PreciseNum,
    pub max_grad_in_pulmonary_artery: PreciseNum,
    pub pulmonary_regurgitation_max_velocity: Option<PreciseNum>,
    pub pulmonary_regurgitation_max_grad: Option<PreciseNum>,
    pub vena: PreciseNum,
    pub effusion: PericardialEffusion,
    pub age: i32,
    pub left_atrium_index: CalcNum,
    pub body_surface_area: CalcNum,
    pub ejection_fraction: CalcNum,
    pub left_ventricle_mass: PreciseNum,
    pub left_ventricle_mass_index: CalcNum,
    pub relative_wall_thickness: CalcNum,
    pub stroke_volume: AutoValue,
    pub cardiac_output: PreciseNum,
    pub cardiac_index: CalcNum,
    pub peak_e_div_peak_a: CalcNum,
    pub e_div_e_aps: CalcNum,
    pub pulmonary_artery_systolic_pressure: PreciseNum,
    pub pulmonary_artery_med_pressure: Option<PreciseNum>,
    pub today: PlainDateTime,
}

/// The stroke volume: the operator's own value when one was entered
/// (`auto == false`), else the Simpson volume difference (`auto == true`).
pub open spec fn spec_stroke_volume(raw: RawReportData) -> AutoValue {
    match raw.stroke_volume {
        Option::Some(v) => AutoValue { value: v, auto: false },
        Option::None => AutoValue {
            value: PreciseNum {
                num: (raw.simpson_end_diastolic_volume.num - raw.simpson_end_systolic_volume.num)
                    as i128,
                precision: 0,
            },
            auto: true,
        },
    }
}

/// The explicit right-atrium pressure addend when one was chosen, else
/// the implicit default of 3.
pub open spec fn spec_rap(raw: RawReportData) -> int {
    match raw.right_atrium_pressure_choice {
        Option::Some(c) => c as int,
        Option::None => 3,
    }
}

/// The Devereux left-ventricle mass, scaled by `10^6`:
/// `10^6 * (0.8 * 1.04 * ((lvidd + ivs + pw)^3 - lvidd^3) + 0.6)` over
/// the one-decimal mantissas.
pub open spec fn spec_mass_num(raw: RawReportData) -> int {
    let l = raw.left_ventricle_diastolic_size.num as int;
    let s = (raw.left_ventricle_diastolic_size.num + raw.septum_thickness.num
        + raw.posterior_wall_thickness.num) as int;
    832 * (s * s * s - l * l * l) + 600_000
}

/// The whole derivation: every measurement carried over unchanged, every
/// clinical index computed from the formulas, each at its display
/// precision with halves rounded away from zero.
pub open spec fn spec_from_raw(raw: RawReportData, today: PlainDateTime) -> CalculatedReportData {
    let h = raw.height.num as int;
    let w = raw.weight.num as int;
    let neg = h < 0 || w < 0;
    let bsa7 = spec_bsa_scaled(h, w);
    let edv = raw.simpson_end_diastolic_volume.num as int;
    let esv = raw.simpson_end_systolic_volume.num as int;
    let mass_num = spec_mass_num(raw);
    let sv = spec_stroke_volume(raw);
    let rap = spec_rap(raw);
    CalculatedReportData {
        name: raw.name,
        birthday: raw.birthday,
        department: raw.department,
        cardnum: raw.card_number,
        height: raw.height,
        weight: raw.weight,
        pulse: raw.pulse,
        aortic_sinus_diameter: raw.aortic_sinus_diameter,
        left_ventricle_diastolic_size: raw.left_ventricle_diastolic_size,
        left_ventricle_systolic_size: raw.left_ventricle_systolic_size,
        septum_thickness: raw.septum_thickness,
        posterior_wall_thickness: raw.posterior_wall_thickness,
        simpson_end_diastolic_volume: raw.simpson_end_diastolic_volume,
        simpson_end_systolic_volume: raw.simpson_end_systolic_volume,
        ascending_aorta_diameter: raw.ascending_aorta_diameter,
        left_atrium: raw.left_atrium,
        left_atrium4: raw.left_atrium4,
        left_atrium_volume: raw.left_atrium_volume,
        right_atrium_s: raw.right_atrium_s,
        right_atrium4: raw.right_atrium4,
        right_atrium_volume: raw.right_atrium_volume,
        right_ventricle: raw.right_ventricle,
        right_ventricle_baz: raw.right_ventricle_baz,
        right_ventricle_medium: raw.right_ventricle_medium,
        right_ventricle_wall_thickness: raw.right_ventricle_wall_thickness,
        tapse: raw.tapse,
        septum_thickness_baz: raw.septum_thickness_baz,
        shutters_aortal: raw.shutters_aortal,
        opening_amplitude: raw.opening_amplitude,
        max_velocity: raw.max_velocity_aortal,
        max_grad: raw.max_grad_aortal,
        mid_grad: raw.mid_grad,
        s_doppler: raw.s_doppler,
        s_planim: raw.s_planim,
        presh_time: raw.presh_time,
        vena_contracta: raw.vena_contracta,
        max_velocity_vt: raw.max_velocity_vt,
        max_grad_vt: raw.max_grad_vt,
        shutters_mitral: raw.shutters_mitral,
        peak_e: raw.peak_e,
        peak_a: raw.peak_a,
        tdi_vel: raw.tdi_vel,
        e_sept: raw.e_sept,
        e_lat: raw.e_lat,
        max_velocity_mitral_valve: raw.max_velocity_mitral_valve,
        max_grad_mitral_valve: raw.max_grad_mitral_valve,
        mid_grad_mitral_valve: raw.mid_grad_mitral_valve,
        calts_back_sash: raw.calts_back_sash,
        posterior_leaflet_base_calcification: raw.posterior_leaflet_base_calcification,
        max_velocity_tricuspidal_regurgitation: raw.max_velocity_tricuspidal_regurgitation,
        pulmonary_artery: raw.pulmonary_artery,
        max_grad_tricuspidal_regurgitation: raw.max_grad_tricuspidal_regurgitation,
        pulmonary_artery_right_branch: raw.pulmonary_artery_right_branch,
        pulmonary_artery_left_branch: raw.pulmonary_artery_left_branch,
        max_velocity_in_pulmonary_artery: raw.max_velocity_in_pulmonary_artery,
        max_grad_in_pulmonary_artery: raw.max_grad_in_pulmonary_artery,
        pulmonary_regurgitation_max_velocity: raw.pulmonary_regurgitation_max_velocity,
        pulmonary_regurgitation_max_grad: raw.pulmonary_regurgitation_max_grad,
        vena: raw.vena,
        effusion: raw.effusion,
        age: spec_age(raw.birthday, today.date) as i32,
        left_atrium_index: if neg {
            CalcNum::NotANumber
        } else {
            spec_div_calc(raw.left_atrium_volume.num * 1_000_000_000, bsa7, 2)
        },
        body_surface_area: if neg {
            CalcNum::NotANumber
        } else {
            CalcNum::Num(PreciseNum { num: spec_ratio_int(bsa7, 100_000) as i128, precision: 2 })
        },
        ejection_fraction: spec_div_calc((edv - esv) * 1000, edv, 1),
        left_ventricle_mass: PreciseNum {
            num: spec_ratio_int(mass_num, 10_000) as i128,
            precision: 2,
        },
        left_ventricle_mass_index: if neg {
            CalcNum::NotANumber
        } else {
            spec_div_calc(mass_num * 1000, bsa7, 2)
        },
        relative_wall_thickness: spec_div_calc(
            200 * raw.posterior_wall_thickness.num,
            raw.left_ventricle_diastolic_size.num as int,
            2,
        ),
        stroke_volume: sv,
        cardiac_output: PreciseNum {
            num: spec_ratio_int(raw.pulse.num * sv.value.num, 10) as i128,
            precision: 2,
        },
        cardiac_index: if neg {
            CalcNum::NotANumber
        } else {
            spec_div_calc(raw.pulse.num * sv.value.num * 1_000_000, bsa7, 2)
        },
        peak_e_div_peak_a: spec_div_calc(raw.peak_e.num * 100, raw.peak_a.num as int, 2),
        e_div_e_aps: spec_div_calc(
            200 * raw.peak_e.num,
            raw.e_sept.num + raw.e_lat.num,
            2,
        ),
        pulmonary_artery_systolic_pressure: PreciseNum {
            num: (raw.max_grad_tricuspidal_regurgitation.num + rap) as i128,
            precision: 0,
        },
        pulmonary_artery_med_pressure: match raw.pulmonary_regurgitation_max_grad {
            Option::Some(g) => Option::Some(
                PreciseNum { num: (g.num + rap) as i128, precision: 0 },
            ),
            Option::None => Option::None,
        },
        today,
    }
}

impl CalculatedReportData {
    /// Every numeric field can be formatted: mantissas clear of the one
    /// unusable value and precisions within the 128-bit power table.
    pub open spec fn wf(self) -> bool {
        &&& self.birthday.wf()
        &&& self.today.wf()
        &&& self.height.inv() && self.weight.inv() && self.pulse.inv()
        &&& self.aortic_sinus_diameter.inv() && self.ascending_aorta_diameter.inv()
        &&& self.left_ventricle_diastolic_size.inv() && self.left_ventricle_systolic_size.inv()
        &&& self.septum_thickness.inv() && self.posterior_wall_thickness.inv()
        &&& self.simpson_end_diastolic_volume.inv() && self.simpson_end_systolic_volume.inv()
        &&& self.left_atrium.inv() && self.left_atrium4.inv() && self.left_atrium_volume.inv()
        &&& self.right_atrium_s.inv() && self.right_atrium4.inv() && self.right_atrium_volume.inv()
        &&& self.right_ventricle.inv() && self.right_ventricle_baz.inv()
        &&& opt_inv(self.right_ventricle_medium) && opt_inv(self.right_ventricle_wall_thickness)
        &&& opt_inv(self.tapse) && opt_inv(self.septum_thickness_baz)
        &&& self.opening_amplitude.inv() && self.max_velocity.inv() && self.max_grad.inv()
        &&& opt_inv(self.mid_grad) && opt_inv(self.s_doppler) && opt_inv(self.s_planim)
        &&& opt_inv(self.presh_time) && opt_inv(self.vena_contracta)
        &&& opt_inv(self.max_velocity_vt) && opt_inv(self.max_grad_vt)
        &&& self.peak_e.inv() && self.peak_a.inv() && self.e_sept.inv() && self.e_lat.inv()
        &&& opt_inv(self.max_velocity_mitral_valve) && opt_inv(self.max_grad_mitral_valve)
        &&& opt_inv(self.mid_grad_mitral_valve)
        &&& self.max_velocity_tricuspidal_regurgitation.inv() && self.pulmonary_artery.inv()
        &&& self.max_grad_tricuspidal_regurgitation.inv()
        &&& opt_inv(self.pulmonary_artery_right_branch) && opt_inv(
            self.pulmonary_artery_left_branch,
        )
        &&& self.max_velocity_in_pulmonary_artery.inv() && self.max_grad_in_pulmonary_artery.inv()
        &&& opt_inv(self.pulmonary_regurgitation_max_velocity) && opt_inv(
            self.pulmonary_regurgitation_max_grad,
        )
        &&& self.vena.inv()
        &&& self.left_atrium_index.inv() && self.body_surface_area.inv()
        &&& self.ejection_fraction.inv() && self.left_ventricle_mass.inv()
        &&& self.left_ventricle_mass_index.inv() && self.relative_wall_thickness.inv()
        &&& self.stroke_volume.inv() && self.cardiac_output.inv() && self.cardiac_index.inv()
        &&& self.peak_e_div_peak_a.inv() && self.e_div_e_aps.inv()
        &&& self.pulmonary_artery_systolic_pressure.inv()
        &&& opt_inv(self.pulmonary_artery_med_pressure)
    }

    /// Computes every derived clinical index from the raw measurements,
    /// in exact decimal arithmetic.
    pub fn from_raw(raw: &RawReportData, today: PlainDateTime) -> (r: CalculatedReportData)
        requires
            raw.wf(),
            today.wf(),
        ensures
            r == spec_from_raw(*raw, today),
            r.wf(),
    {
        let h: i128 = raw.height.num;
        let w: i128 = raw.weight.num;
        let neg: bool = h < 0 || w < 0;
        let edv: i128 = raw.simpson_end_diastolic_volume.num;
        let esv: i128 = raw.simpson_end_systolic_volume.num;

        let l: i128 = raw.left_ventricle_diastolic_size.num;
        let sum: i128 = l + raw.septum_thickness.num + raw.posterior_wall_thickness.num;
        proof {
            assert(sum * sum <= 9_000_000_000_000_000_000) by (nonlinear_arith)
                requires
                    -3_000_000_000 <= sum <= 3_000_000_000,
            ;
            assert(sum * sum >= 0) by (nonlinear_arith);
        }
        let s2: i128 = sum * sum;
        proof {
            assert(-27_000_000_000_000_000_000_000_000_000 <= s2 * sum
                <= 27_000_000_000_000_000_000_000_000_000) by (nonlinear_arith)
                requires
                    0 <= s2 <= 9_000_000_000_000_000_000,
                    -3_000_000_000 <= sum <= 3_000_000_000,
            ;
        }
        let s3: i128 = s2 * sum;
        proof {
            assert(l * l <= 1_000_000_000_000_000_000) by (nonlinear_arith)
                requires
                    -1_000_000_000 <= l <= 1_000_000_000,
            ;
            assert(l * l >= 0) by (nonlinear_arith);
        }
        let l2: i128 = l * l;
        proof {
            assert(-1_000_000_000_000_000_000_000_000_000 <= l2 * l
                <= 1_000_000_000_000_000_000_000_000_000) by (nonlinear_arith)
                requires
                    0 <= l2 <= 1_000_000_000_000_000_000,
                    -1_000_000_000 <= l <= 1_000_000_000,
            ;
        }
        let l3: i128 = l2 * l;
        let mass_num: i128 = 832 * (s3 - l3) + 600_000;

        let sv: AutoValue = match raw.stroke_volume {
            Option::Some(v) => AutoValue { value: v, auto: false },
            Option::None => AutoValue {
                value: PreciseNum { num: edv - esv, precision: 0 },
                auto: true,
            },
        };
        let svn: i128 = sv.value.num;
        let pulse: i128 = raw.pulse.num;
        proof {
            assert(-2_000_000_000_000_000_000 <= pulse * svn <= 2_000_000_000_000_000_000)
                by (nonlinear_arith)
                requires
                    -1_000_000_000 <= pulse <= 1_000_000_000,
                    -2_000_000_000 <= svn <= 2_000_000_000,
            ;
        }
        let co_prod: i128 = pulse * svn;

        let rap: i128 = match raw.right_atrium_pressure_choice {
            Option::Some(c) => c as i128,
            Option::None => 3,
        };

        let age32: i32 = calc_age(&raw.birthday, &today.date);

        let bsa_parts: (CalcNum, CalcNum, CalcNum, CalcNum) = if neg {
            (CalcNum::NotANumber, CalcNum::NotANumber, CalcNum::NotANumber, CalcNum::NotANumber)
        } else {
            let b7: u128 = bsa_scaled(h as u64, w as u64);
            let b7i: i128 = b7 as i128;
            let lai: CalcNum = div_calc(raw.left_atrium_volume.num * 1_000_000_000, b7i, 2);
            let bsa_f: CalcNum = CalcNum::Num(
                PreciseNum { num: round_div(b7i, 100_000), precision: 2 },
            );
            let lvmi: CalcNum = div_calc(mass_num * 1000, b7i, 2);
            let ci: CalcNum = div_calc(co_prod * 1_000_000, b7i, 2);
            (lai, bsa_f, lvmi, ci)
        };

        let r = CalculatedReportData {
            name: raw.name.clone(),
            birthday: raw.birthday,
            department: raw.department,
            cardnum: raw.card_number,
            height: raw.height,
            weight: raw.weight,
            pulse: raw.pulse,
            aortic_sinus_diameter: raw.aortic_sinus_diameter,
            left_ventricle_diastolic_size: raw.left_ventricle_diastolic_size,
            left_ventricle_systolic_size: raw.left_ventricle_systolic_size,
            septum_thickness: raw.septum_thickness,
            posterior_wall_thickness: raw.posterior_wall_thickness,
            simpson_end_diastolic_volume: raw.simpson_end_diastolic_volume,
            simpson_end_systolic_volume: raw.simpson_end_systolic_volume,
            ascending_aorta_diameter: raw.ascending_aorta_diameter,
            left_atrium: raw.left_atrium,
            left_atrium4: raw.left_atrium4,
            left_atrium_volume: raw.left_atrium_volume,
            right_atrium_s: raw.right_atrium_s,
            right_atrium4: raw.right_atrium4,
            right_atrium_volume: raw.right_atrium_volume,
            right_ventricle: raw.right_ventricle,
            right_ventricle_baz: raw.right_ventricle_baz,
            right_ventricle_medium: raw.right_ventricle_medium,
            right_ventricle_wall_thickness: raw.right_ventricle_wall_thickness,
            tapse: raw.tapse,
            septum_thickness_baz: raw.septum_thickness_baz,
            shutters_aortal: raw.shutters_aortal,
            opening_amplitude: raw.opening_amplitude,
            max_velocity: raw.max_velocity_aortal,
            max_grad: raw.max_grad_aortal,
            mid_grad: raw.mid_grad,
            s_doppler: raw.s_doppler,
            s_planim: raw.s_planim,
            presh_time: raw.presh_time,
            vena_contracta: raw.vena_contracta,
            max_velocity_vt: raw.max_velocity_vt,
            max_grad_vt: raw.max_grad_vt,
            shutters_mitral: raw.shutters_mitral,
            peak_e: raw.peak_e,
            peak_a: raw.peak_a,
            tdi_vel: raw.tdi_vel,
            e_sept: raw.e_sept,
            e_lat: raw.e_lat,
            max_velocity_mitral_valve: raw.max_velocity_mitral_valve,
            max_grad_mitral_valve: raw.max_grad_mitral_valve,
            mid_grad_mitral_valve: raw.mid_grad_mitral_valve,
            calts_back_sash: raw.calts_back_sash,
            posterior_leaflet_base_calcification: raw.posterior_leaflet_base_calcification,
            max_velocity_tricuspidal_regurgitation: raw.max_velocity_tricuspidal_regurgitation,
            pulmonary_artery: raw.pulmonary_artery,
            max_grad_tricuspidal_regurgitation: raw.max_grad_tricuspidal_regurgitation,
            pulmonary_artery_right_branch: raw.pulmonary_artery_right_branch,
            pulmonary_artery_left_branch: raw.pulmonary_artery_left_branch,
            max_velocity_in_pulmonary_artery: raw.max_velocity_in_pulmonary_artery,
            max_grad_in_pulmonary_artery: raw.max_grad_in_pulmonary_artery,
            pulmonary_regurgitation_max_velocity: raw.pulmonary_regurgitation_max_velocity,
            pulmonary_regurgitation_max_grad: raw.pulmonary_regurgitation_max_grad,
            vena: raw.vena,
            effusion: raw.effusion,
            age: age32,
            left_atrium_index: bsa_parts.0,
            body_surface_area: bsa_parts.1,
            ejection_fraction: div_calc((edv - esv) * 1000, edv, 1),
            left_ventricle_mass: PreciseNum { num: round_div(mass_num, 10_000), precision: 2 },
            left_ventricle_mass_index: bsa_parts.2,
            relative_wall_thickness: div_calc(
                200 * raw.posterior_wall_thickness.num,
                raw.left_ventricle_diastolic_size.num,
                2,
            ),
            stroke_volume: sv,
            cardiac_output: PreciseNum { num: round_div(co_prod, 10), precision: 2 },
            cardiac_index: bsa_parts.3,
            peak_e_div_peak_a: div_calc(raw.peak_e.num * 100, raw.peak_a.num, 2),
            e_div_e_aps: div_calc(200 * raw.peak_e.num, raw.e_sept.num + raw.e_lat.num, 2),
            pulmonary_artery_systolic_pressure: PreciseNum {
                num: raw.max_grad_tricuspidal_regurgitation.num + rap,
                precision: 0,
            },
            pulmonary_artery_med_pressure: match raw.pulmonary_regurgitation_max_grad {
                Option::Some(g) => Option::Some(
                    PreciseNum { num: g.num + rap, precision: 0 },
                ),
                Option::None => Option::None,
            },
            today,
        };
        r
    }
}

/// The flat mapping of template placeholder to formatted text; every
/// value is final display text, consumed by the external template
/// renderer and never read back.
#[derive(Clone, Debug)]
pub struct EchoReport {
    pub name: String,
    pub birthday: String,
    pub department: String,
    pub cardnum: String,
    pub age: String,
    pub height: String,
    pub weight: String,
    pub pulse: String,
    pub aortic_sinus_diameter: String,
    pub body_surface_area: String,
    pub left_ventricle_diastolic_size: String,
    pub left_ventricle_systolic_size: String,
    pub septum_thickness: String,
    pub posterior_wall_thickness: String,
    pub left_ventricle_mass: String,
    pub left_ventricle_mass_index: String,
    pub relative_wall_thickness: String,
    pub stroke_volume: String,
    pub cardiac_index: String,
    pub cardiac_output: String,
    pub simpson_end_diastolic_volume: String,
    pub simpson_end_systolic_volume: String,
    pub ejection_fraction: String,
    pub ascending_aorta_diameter: String,
    pub left_atrium: String,
    pub left_atrium4: String,
    pub left_atrium_volume: String,
    pub left_atrium_index: String,
    pub right_atrium_s: String,
    pub right_atrium4: String,
    pub right_atrium_volume: String,
    pub right_ventricle: String,
    pub right_ventricle_baz: String,
    pub right_ventricle_medium_full: String,
    pub right_ventricle_wall_thickness_full: String,
    pub tapse_full: String,
    pub septum_thickness_baz_full: String,
    pub shutters_aortal: String,
    pub opening_amplitude: String,
    pub max_velocity: String,
    pub max_grad: String,
    pub mid_grad_full: String,
    pub s_doppler_full: String,
    pub s_planim_full: String,
    pub presh_time_full: String,
    pub vena_contracta_full: String,
    pub max_velocity_vt_full: String,
    pub max_grad_vt_full: String,
    pub shutters_mitral: String,
    pub peak_e: String,
    pub peak_a: String,
    pub peak_e_div_peak_a: String,
    pub tdi_vel: String,
    pub e_sept: String,
    pub e_lat: String,
    pub e_div_e_aps: String,
    pub max_velocity_mitral_valve_full: String,
    pub max_grad_mitral_valve_full: String,
    pub mid_grad_mitral_valve_full: String,
    pub calts_back_sash: String,
    pub posterior_leaflet_base_calcification: String,
    pub max_velocity_tricuspidal_regurgitation: String,
    pub pulmonary_artery: String,
    pub pulmonary_artery_systolic_pressure: String,
    pub max_grad_tricuspidal_regurgitation: String,
    pub pulmonary_artery_right_branch_full: String,
    pub pulmonary_artery_left_branch_full: String,
    pub max_velocity_in_pulmonary_artery: String,
    pub max_grad_in_pulmonary_artery: String,
    pub pulmonary_regurgitation_max_velocity_full: String,
    pub pulmonary_regurgitation_max_grad_full: String,
    pub pulmonary_artery_med_pressure_full: String,
    pub vena: String,
    pub effusion: String,
    pub today: String,
}

impl CalculatedReportData {
    /// Formats every field of the report: plain measurements with their
    /// declared precision, optional measurements composed with their
    /// field-specific unit and reference-range fragments, and the
    /// categorical answers by their labels.
    pub fn render(&self) -> (r: EchoReport)
        requires
            self.wf(),
        ensures
            r.name@ == self.name@,
            r.birthday@ == self.birthday.spec_format(),
            r.department@ == self.department.label_spec(),
            r.cardnum@ == self.cardnum.render_spec(self.today),
            r.age@ == spec_decimal(self.age as int, 0),
            r.height@ == self.height.spec_format(),
            r.weight@ == self.weight.spec_format(),
            r.pulse@ == self.pulse.spec_format(),
            r.aortic_sinus_diameter@ == self.aortic_sinus_diameter.spec_format(),
            r.body_surface_area@ == self.body_surface_area.spec_format(),
            r.left_ventricle_diastolic_size@ == self.left_ventricle_diastolic_size.spec_format(),
            r.left_ventricle_systolic_size@ == self.left_ventricle_systolic_size.spec_format(),
            r.septum_thickness@ == self.septum_thickness.spec_format(),
            r.posterior_wall_thickness@ == self.posterior_wall_thickness.spec_format(),
            r.left_ventricle_mass@ == self.left_ventricle_mass.spec_format(),
            r.left_ventricle_mass_index@ == self.left_ventricle_mass_index.spec_format(),
            r.relative_wall_thickness@ == self.relative_wall_thickness.spec_format(),
            r.stroke_volume@ == self.stroke_volume.spec_format(),
            r.cardiac_index@ == self.cardiac_index.spec_format(),
            r.cardiac_output@ == self.cardiac_output.spec_format(),
            r.simpson_end_diastolic_volume@ == self.simpson_end_diastolic_volume.spec_format(),
            r.simpson_end_systolic_volume@ == self.simpson_end_systolic_volume.spec_format(),
            r.ejection_fraction@ == self.ejection_fraction.spec_format(),
            r.ascending_aorta_diameter@ == self.ascending_aorta_diameter.spec_format(),
            r.left_atrium@ == self.left_atrium.spec_format(),
            r.left_atrium4@ == self.left_atrium4.spec_format(),
            r.left_atrium_volume@ == self.left_atrium_volume.spec_format(),
            r.left_atrium_index@ == self.left_atrium_index.spec_format(),
            r.right_atrium_s@ == self.right_atrium_s.spec_format(),
            r.right_atrium4@ == self.right_atrium4.spec_format(),
            r.right_atrium_volume@ == self.right_atrium_volume.spec_format(),
            r.right_ventricle@ == self.right_ventricle.spec_format(),
            r.right_ventricle_baz@ == self.right_ventricle_baz.spec_format(),
            r.right_ventricle_medium_full@ == spec_compose(
                self.right_ventricle_medium,
                ", средний "@,
                " см (N< 3,5 см). "@,
            ),
            r.right_ventricle_wall_thickness_full@ == spec_compose(
                self.right_ventricle_wall_thickness,
                "Толщина передней стенки ПЖ: "@,
                " см (N<0,5 см). "@,
            ),
            r.tapse_full@ == spec_compose(self.tapse, "TAPSE: "@, " см (N>=1,7 см)"@),
            r.septum_thickness_baz_full@ == spec_compose(
                self.septum_thickness_baz,
                "Базальный отдел межжелудочковой перегородки (МЖП): "@,
                " см."@,
            ),
            r.shutters_aortal@ == self.shutters_aortal.render_spec(),
            r.opening_amplitude@ == self.opening_amplitude.spec_format(),
            r.max_velocity@ == self.max_velocity.spec_format(),
            r.max_grad@ == self.max_grad.spec_format(),
            r.mid_grad_full@ == spec_compose(
                self.mid_grad,
                ". Gr ср "@,
                " мм рт.ст. (N<20 мм рт.ст.). "@,
            ),
            r.s_doppler_full@ == spec_compose(
                self.s_doppler,
                "S отверстия АК "@,
                " см² (по допплеру)"@,
            ),
            r.s_planim_full@ == spec_compose(self.s_planim, " и "@, " см² (планиметрически)"@),
            r.presh_time_full@ == spec_compose(self.presh_time, "PHT АР "@, " мс, VC АР "@),
            r.vena_contracta_full@ == spec_compose(self.vena_contracta, ""@, " см."@),
            r.max_velocity_vt_full@ == spec_compose(
                self.max_velocity_vt,
                "ВТЛЖ: V max - "@,
                " м/с (N< 2,0 м/с), "@,
            ),
            r.max_grad_vt_full@ == spec_compose(self.max_grad_vt, "Gr мах - "@, " мм рт.ст."@),
            r.shutters_mitral@ == self.shutters_mitral.render_spec(),
            r.peak_e@ == self.peak_e.spec_format(),
            r.peak_a@ == self.peak_a.spec_format(),
            r.peak_e_div_peak_a@ == self.peak_e_div_peak_a.spec_format(),
            r.tdi_vel@ == self.tdi_vel.text_spec(),
            r.e_sept@ == self.e_sept.spec_format(),
            r.e_lat@ == self.e_lat.spec_format(),
            r.e_div_e_aps@ == self.e_div_e_aps.spec_format(),
            r.max_velocity_mitral_valve_full@ == spec_compose(
                self.max_velocity_mitral_valve,
                "V max  "@,
                " м/с (N- 1,1 м/с)"@,
            ),
            r.max_grad_mitral_valve_full@ == spec_compose(
                self.max_grad_mitral_valve,
                ", Gr мах "@,
                " мм рт. ст. (N<7 мм рт. ст.)"@,
            ),
            r.mid_grad_mitral_valve_full@ == spec_compose(
                self.mid_grad_mitral_valve,
                ", Gr ср "@,
                " мм рт.ст. (N<5 мм рт.ст)."@,
            ),
            r.calts_back_sash@ == self.calts_back_sash.text_spec(),
            r.posterior_leaflet_base_calcification@
                == self.posterior_leaflet_base_calcification.text_spec(),
            r.max_velocity_tricuspidal_regurgitation@
                == self.max_velocity_tricuspidal_regurgitation.spec_format(),
            r.pulmonary_artery@ == self.pulmonary_artery.spec_format(),
            r.pulmonary_artery_systolic_pressure@
                == self.pulmonary_artery_systolic_pressure.spec_format(),
            r.max_grad_tricuspidal_regurgitation@
                == self.max_grad_tricuspidal_regurgitation.spec_format(),
            r.pulmonary_artery_right_branch_full@ == spec_compose(
                self.pulmonary_artery_right_branch,
                ", правая ветвь - "@,
                " см, "@,
            ),
            r.pulmonary_artery_left_branch_full@ == spec_compose(
                self.pulmonary_artery_left_branch,
                "левая ветвь - "@,
                " см (N<1,5 см)"@,
            ),
            r.max_velocity_in_pulmonary_artery@
                == self.max_velocity_in_pulmonary_artery.spec_format(),
            r.max_grad_in_pulmonary_artery@ == self.max_grad_in_pulmonary_artery.spec_format(),
            r.pulmonary_regurgitation_max_velocity_full@ == spec_compose(
                self.pulmonary_regurgitation_max_velocity,
                "V max.ЛР "@,
                " м/с "@,
            ),
            r.pulmonary_regurgitation_max_grad_full@ == spec_compose(
                self.pulmonary_regurgitation_max_grad,
                "Макс.град. ЛР "@,
                " мм рт.ст."@,
            ),
            r.pulmonary_artery_med_pressure_full@ == spec_compose(
                self.pulmonary_artery_med_pressure,
                ", Ср.ДЛА "@,
                " мм рт.ст. (до 20 мм рт.ст.)."@,
            ),
            r.vena@ == self.vena.spec_format(),
            r.effusion@ == self.effusion.render_spec(),
            r.today@ == self.today.spec_format(),
    {
        EchoReport {
            name: self.name.clone(),
            birthday: self.birthday.format(),
            department: String::from_str(self.department.label()),
            cardnum: self.cardnum.render_to_string(&self.today),
            age: format_int(self.age as i64),
            height: self.height.format(),
            weight: self.weight.format(),
            pulse: self.pulse.format(),
            aortic_sinus_diameter: self.aortic_sinus_diameter.format(),
            body_surface_area: self.body_surface_area.format(),
            left_ventricle_diastolic_size: self.left_ventricle_diastolic_size.format(),
            left_ventricle_systolic_size: self.left_ventricle_systolic_size.format(),
            septum_thickness: self.septum_thickness.format(),
            posterior_wall_thickness: self.posterior_wall_thickness.format(),
            left_ventricle_mass: self.left_ventricle_mass.format(),
            left_ventricle_mass_index: self.left_ventricle_mass_index.format(),
            relative_wall_thickness: self.relative_wall_thickness.format(),
            stroke_volume: self.stroke_volume.format(),
            cardiac_index: self.cardiac_index.format(),
            cardiac_output: self.cardiac_output.format(),
            simpson_end_diastolic_volume: self.simpson_end_diastolic_volume.format(),
            simpson_end_systolic_volume: self.simpson_end_systolic_volume.format(),
            ejection_fraction: self.ejection_fraction.format(),
            ascending_aorta_diameter: self.ascending_aorta_diameter.format(),
            left_atrium: self.left_atrium.format(),
            left_atrium4: self.left_atrium4.format(),
            left_atrium_volume: self.left_atrium_volume.format(),
            left_atrium_index: self.left_atrium_index.format(),
            right_atrium_s: self.right_atrium_s.format(),
            right_atrium4: self.right_atrium4.format(),
            right_atrium_volume: self.right_atrium_volume.format(),
            right_ventricle: self.right_ventricle.format(),
            right_ventricle_baz: self.right_ventricle_baz.format(),
            right_ventricle_medium_full: render_to_string(
                self.right_ventricle_medium,
                ", средний ",
                " см (N< 3,5 см). ",
            ),
            right_ventricle_wall_thickness_full: render_to_string(
                self.right_ventricle_wall_thickness,
                "Толщина передней стенки ПЖ: ",
                " см (N<0,5 см). ",
            ),
            tapse_full: render_to_string(self.tapse, "TAPSE: ", " см (N>=1,7 см)"),
            septum_thickness_baz_full: render_to_string(
                self.septum_thickness_baz,
                "Базальный отдел межжелудочковой перегородки (МЖП): ",
                " см.",
            ),
            shutters_aortal: self.shutters_aortal.render_to_string(),
            opening_amplitude: self.opening_amplitude.format(),
            max_velocity: self.max_velocity.format(),
            max_grad: self.max_grad.format(),
            mid_grad_full: render_to_string(
                self.mid_grad,
                ". Gr ср ",
                " мм рт.ст. (N<20 мм рт.ст.). ",
            ),
            s_doppler_full: render_to_string(
                self.s_doppler,
                "S отверстия АК ",
                " см² (по допплеру)",
            ),
            s_planim_full: render_to_string(self.s_planim, " и ", " см² (планиметрически)"),
            presh_time_full: render_to_string(self.presh_time, "PHT АР ", " мс, VC АР "),
            vena_contracta_full: render_to_string(self.vena_contracta, "", " см."),
            max_velocity_vt_full: render_to_string(
                self.max_velocity_vt,
                "ВТЛЖ: V max - ",
                " м/с (N< 2,0 м/с), ",
            ),
            max_grad_vt_full: render_to_string(self.max_grad_vt, "Gr мах - ", " мм рт.ст."),
            shutters_mitral: self.shutters_mitral.render_to_string(),
            peak_e: self.peak_e.format(),
            peak_a: self.peak_a.format(),
            peak_e_div_peak_a: self.peak_e_div_peak_a.format(),
            tdi_vel: String::from_str(self.tdi_vel.text()),
            e_sept: self.e_sept.format(),
            e_lat: self.e_lat.format(),
            e_div_e_aps: self.e_div_e_aps.format(),
            max_velocity_mitral_valve_full: render_to_string(
                self.max_velocity_mitral_valve,
                "V max  ",
                " м/с (N- 1,1 м/с)",
            ),
            max_grad_mitral_valve_full: render_to_string(
                self.max_grad_mitral_valve,
                ", Gr мах ",
                " мм рт. ст. (N<7 мм рт. ст.)",
            ),
            mid_grad_mitral_valve_full: render_to_string(
                self.mid_grad_mitral_valve,
                ", Gr ср ",
                " мм рт.ст. (N<5 мм рт.ст).",
            ),
            calts_back_sash: String::from_str(self.calts_back_sash.text()),
            posterior_leaflet_base_calcification: String::from_str(
                self.posterior_leaflet_base_calcification.text(),
            ),
            max_velocity_tricuspidal_regurgitation: self
                .max_velocity_tricuspidal_regurgitation
                .format(),
            pulmonary_artery: self.pulmonary_artery.format(),
            pulmonary_artery_systolic_pressure: self.pulmonary_artery_systolic_pressure.format(),
            max_grad_tricuspidal_regurgitation: self.max_grad_tricuspidal_regurgitation.format(),
            pulmonary_artery_right_branch_full: render_to_string(
                self.pulmonary_artery_right_branch,
                ", правая ветвь - ",
                " см, ",
            ),
            pulmonary_artery_left_branch_full: render_to_string(
                self.pulmonary_artery_left_branch,
                "левая ветвь - ",
                " см (N<1,5 см)",
            ),
            max_velocity_in_pulmonary_artery: self.max_velocity_in_pulmonary_artery.format(),
            max_grad_in_pulmonary_artery: self.max_grad_in_pulmonary_artery.format(),
            pulmonary_regurgitation_max_velocity_full: render_to_string(
                self.pulmonary_regurgitation_max_velocity,
                "V max.ЛР ",
                " м/с ",
            ),
            pulmonary_regurgitation_max_grad_full: render_to_string(
                self.pulmonary_regurgitation_max_grad,
                "Макс.град. ЛР ",
                " мм рт.ст.",
            ),
            pulmonary_artery_med_pressure_full: render_to_string(
                self.pulmonary_artery_med_pressure,
                ", Ср.ДЛА ",
                " мм рт.ст. (до 20 мм рт.ст.).",
            ),
            vena: self.vena.format(),
            effusion: self.effusion.render_to_string(),
            today: self.today.format(),
        }
    }
}

/// Derivation is a pure function: two results computed from the same
/// measurements and the same timestamp are equal in every field.
pub proof fn lemma_derivation_pure(
    raw: RawReportData,
    today: PlainDateTime,
    c1: CalculatedReportData,
    c2: CalculatedReportData,
)
    requires
        c1 == spec_from_raw(raw, today),
        c2 == spec_from_raw(raw, today),
    ensures
        c1 == c2,
{
}

/// The dependency table: whenever a parent field is absent, every field
/// that depends on it is absent too.
pub proof fn lemma_dependency_edges(raw: RawReportData)
    requires
        raw.wf(),
    ensures
        raw.mid_grad is None ==> raw.s_doppler is None && raw.s_planim is None,
        raw.s_doppler is None ==> raw.mid_grad is None && raw.s_planim is None,
        raw.presh_time is None ==> raw.vena_contracta is None,
        raw.septum_thickness_baz is None ==> raw.max_velocity_vt is None,
        raw.max_velocity_vt is None ==> raw.max_grad_vt is None,
        raw.max_velocity_mitral_valve is None ==> raw.max_grad_mitral_valve is None
            && raw.mid_grad_mitral_valve is None,
        raw.pulmonary_artery_right_branch is None ==> raw.pulmonary_artery_left_branch is None,
        raw.pulmonary_regurgitation_max_velocity is None
            ==> raw.pulmonary_regurgitation_max_grad is None,
{
}

/// The stroke-volume rule: no manual value means the automatic flag and
/// the Simpson volume difference; a manual value is taken as entered,
/// with the flag cleared.
pub proof fn lemma_stroke_volume_flag(raw: RawReportData, today: PlainDateTime)
    requires
        raw.wf(),
    ensures
        raw.stroke_volume is None ==> spec_from_raw(raw, today).stroke_volume.auto
            && spec_from_raw(raw, today).stroke_volume.value.num
            == raw.simpson_end_diastolic_volume.num - raw.simpson_end_systolic_volume.num
            && spec_from_raw(raw, today).stroke_volume.value.precision == 0,
        raw.stroke_volume matches Some(v) ==> spec_from_raw(raw, today).stroke_volume == (
        AutoValue { value: v, auto: false }),
{
}

/// The pulmonary mean pressure is derived exactly when the pulmonary
/// regurgitation maximum gradient was measured.
pub proof fn lemma_mean_pressure_presence(raw: RawReportData, today: PlainDateTime)
    ensures
        (spec_from_raw(raw, today).pulmonary_artery_med_pressure is Some) <==> (
        raw.pulmonary_regurgitation_max_grad is Some),
{
}

} // verus!
