//! The closed sets of categorical answers an operator can pick, each with
//! its canonical display label, and the card-number variants.

use vstd::prelude::*;
use vstd::string::StringExecFns;

use crate::date::PlainDateTime;
use crate::num::{dec_digits_pad, dec_digits_pad_exec, format_int, spec_decimal};

verus! {

/// A value with a long-form sentence rendering of its own.
pub trait RenderToString {
    /// The sentence fragment this value renders to.
    spec fn render_spec(&self) -> Seq<char>;

    fn render_to_string(&self) -> (s: String)
        ensures
            s@ == self.render_spec(),
    ;
}

/// The hospital department the patient comes from.
#[derive(Clone, Copy, Debug, PartialEq, Eq, Structural)]
pub enum Department {
    Kdo,
    Diot,
    Pulm,
    Revm,
    Kho,
}

impl Department {
    pub open spec fn label_spec(self) -> Seq<char> {
        match self {
            Department::Kdo => "КДО"@,
            Department::Diot => "ДиОТ"@,
            Department::Pulm => "пульм"@,
            Department::Revm => "ревм"@,
            Department::Kho => "КХО"@,
        }
    }

    pub fn label(self) -> (r: &'static str)
        ensures
            r@ == self.label_spec(),
    {
        match self {
            Department::Kdo => "КДО",
            Department::Diot => "ДиОТ",
            Department::Pulm => "пульм",
            Department::Revm => "ревм",
            Department::Kho => "КХО",
        }
    }
}

/// The state of a valve's leaflets.
#[derive(Clone, Copy, Debug, PartialEq, Eq, Structural)]
pub enum ValveLeaflets {
    Normal,
    Thickened,
    ThickenedWithSmallCalcifications,
    Calcified,
}

impl ValveLeaflets {
    pub open spec fn text_spec(self) -> Seq<char> {
        match self {
            ValveLeaflets::Normal => "без особенностей"@,
            ValveLeaflets::Thickened => "уплотнены"@,
            ValveLeaflets::ThickenedWithSmallCalcifications => (
            "уплотнены, с включением мелких кальцинатов"@),
            ValveLeaflets::Calcified => "уплотнены, кальцинированы"@,
        }
    }

    pub fn text(self) -> (r: &'static str)
        ensures
            r@ == self.text_spec(),
    {
        match self {
            ValveLeaflets::Normal => "без особенностей",
            ValveLeaflets::Thickened => "уплотнены",
            ValveLeaflets::ThickenedWithSmallCalcifications => {
                "уплотнены, с включением мелких кальцинатов"
            }
            ValveLeaflets::Calcified => "уплотнены, кальцинированы",
        }
    }
}

impl RenderToString for ValveLeaflets {
    /// The leaflet state as a sentence: the label and a closing period.
    open spec fn render_spec(&self) -> Seq<char> {
        self.text_spec() + ". "@
    }

    fn render_to_string(&self) -> (s: String) {
        let mut s: String = String::from_str(self.text());
        s.append(". ");
        s
    }
}

/// Whether aortic stenosis is present.
#[derive(Clone, Copy, Debug, PartialEq, Eq, Structural)]
pub enum Stenosis {
    No,
    Yes,
}

impl Stenosis {
    pub open spec fn text_spec(self) -> Seq<char> {
        match self {
            Stenosis::No => "нет"@,
            Stenosis::Yes => "есть"@,
        }
    }

    pub fn text(self) -> (r: &'static str)
        ensures
            r@ == self.text_spec(),
    {
        match self {
            Stenosis::No => "нет",
            Stenosis::Yes => "есть",
        }
    }

    pub fn is_yes(self) -> (b: bool)
        ensures
            b == (self is Yes),
    {
        matches!(self, Stenosis::Yes)
    }
}

/// A plain yes/no answer.
#[derive(Clone, Copy, Debug, PartialEq, Eq, Structural)]
pub enum YesNo {
    No,
    Yes,
}

impl YesNo {
    pub open spec fn text_spec(self) -> Seq<char> {
        match self {
            YesNo::No => "Нет"@,
            YesNo::Yes => "Да"@,
        }
    }

    pub fn text(self) -> (r: &'static str)
        ensures
            r@ == self.text_spec(),
    {
        match self {
            YesNo::No => "Нет",
            YesNo::Yes => "Да",
        }
    }
}

/// The tissue-Doppler relation between the E and A peak velocities.
#[derive(Clone, Copy, Debug, PartialEq, Eq, Structural)]
pub enum TdiRelation {
    ELessThanA,
    EGreaterThanA,
}

impl TdiRelation {
    pub open spec fn text_spec(self) -> Seq<char> {
        match self {
            TdiRelation::ELessThanA => "e<a"@,
            TdiRelation::EGreaterThanA => "e>a"@,
        }
    }

    pub fn text(self) -> (r: &'static str)
        ensures
            r@ == self.text_spec(),
    {
        match self {
            TdiRelation::ELessThanA => "e<a",
            TdiRelation::EGreaterThanA => "e>a",
        }
    }
}

/// Whether a pericardial effusion was found.
#[derive(Clone, Copy, Debug, PartialEq, Eq, Structural)]
pub enum PericardialEffusion {
    NotDetected,
    DetectedDetailed,
}

impl PericardialEffusion {
    pub open spec fn text_spec(self) -> Seq<char> {
        match self {
            PericardialEffusion::NotDetected => "не выявлен"@,
            PericardialEffusion::DetectedDetailed => (
            "эхонегативное пространство по задней стенке левого желудочка до см, по боковой стенке левого желудочка до см, по боковой стенке правого желудочка см, по передней стенке правого желудочка см. по верхне-латеральному краю правого предсердия до см"@),
        }
    }

    pub fn text(self) -> (r: &'static str)
        ensures
            r@ == self.text_spec(),
    {
        match self {
            PericardialEffusion::NotDetected => "не выявлен",
            PericardialEffusion::DetectedDetailed => {
                "эхонегативное пространство по задней стенке левого желудочка до см, по боковой стенке левого желудочка до см, по боковой стенке правого желудочка см, по передней стенке правого желудочка см. по верхне-латеральному краю правого предсердия до см"
            }
        }
    }
}

impl RenderToString for PericardialEffusion {
    /// The effusion finding as a sentence: the label and a closing period.
    open spec fn render_spec(&self) -> Seq<char> {
        self.text_spec() + ". "@
    }

    fn render_to_string(&self) -> (s: String) {
        let mut s: String = String::from_str(self.text());
        s.append(". ");
        s
    }
}

/// The patient's card number: an outpatient (`Ak`) or inpatient (`Ib`)
/// number.
#[derive(Clone, Copy, Debug, PartialEq, Eq, Structural)]
pub enum CardNumber {
    Ak(i64),
    Ib(i64),
}

impl CardNumber {
    /// The card-number line: the kind's caption, the number, and the
    /// current year (two digits for an inpatient number, four for an
    /// outpatient one) with the kind's closing letter.
    pub open spec fn render_spec(self, today: PlainDateTime) -> Seq<char> {
        match self {
            CardNumber::Ib(n) => "ИБ№: "@ + spec_decimal(n as int, 0) + "-"@ + dec_digits_pad(
                (today.date.year % 100) as nat,
                2,
            ) + "-C"@,
            CardNumber::Ak(n) => "АК№: "@ + spec_decimal(n as int, 0) + "-"@ + dec_digits_pad(
                today.date.year as nat,
                4,
            ) + "-А"@,
        }
    }

    pub fn render_to_string(&self, today: &PlainDateTime) -> (s: String)
        requires
            today.wf(),
        ensures
            s@ == self.render_spec(*today),
    {
        match self {
            CardNumber::Ib(n) => {
                let mut s: String = String::from_str("ИБ№: ");
                let ns: String = format_int(*n);
                s.append(ns.as_str());
                s.append("-");
                let y: String = dec_digits_pad_exec((today.date.year % 100) as u128, 2);
                s.append(y.as_str());
                s.append("-C");
                proof {
                    assert(s@ =~= self.render_spec(*today));
                }
                s
            }
            CardNumber::Ak(n) => {
                let mut s: String = String::from_str("АК№: ");
                let ns: String = format_int(*n);
                s.append(ns.as_str());
                s.append("-");
                let y: String = dec_digits_pad_exec(today.date.year as u128, 4);
                s.append(y.as_str());
                s.append("-А");
                proof {
                    assert(s@ =~= self.render_spec(*today));
                }
                s
            }
        }
    }
}

} // verus!
