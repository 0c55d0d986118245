//! The parameters each component declares.
//!
//! For every component: its parameters in declaration order, the default of
//! each, and the construction of a parameter set from given values.

use vstd::prelude::*;
use crate::boards::{BoardCamera, DysEsc, Esc, EscStack, NazeBoard};
use crate::body::TricopterBody;
use crate::params::{
    check_values, consistent, first_fault, first_out_of_range, ints_of, outcome, resolve, resolved,
    Component, ParamError, Reason, Rule,
};
use crate::servo::ServoMount;
use crate::units::in_range;

verus! {

impl NazeBoard {
    /// The dimensions in the order they are declared.
    pub open spec fn values(&self) -> Seq<int> {
        seq![
            self.hole_diameter as int,
            self.hole_distance as int,
            self.hole_padding_radius as int,
        ]
    }

    /// The dimensions in the order they are declared.
    pub fn value_list(&self) -> (r: Vec<i64>)
        ensures
            ints_of(r@) == self.values(),
            r@.len() == 3,
    {
        let mut list: Vec<i64> = Vec::new();
        list.push(self.hole_diameter);
        list.push(self.hole_distance);
        list.push(self.hole_padding_radius);
        assert(ints_of(list@) =~= self.values());
        list
    }

    /// Checks every dimension against the magnitude the builders accept;
    /// the error names the first that exceeds it.
    pub fn validate(&self) -> (r: Result<(), ParamError>)
        ensures
            r is Ok <==> self.wf(),
            r matches Err(e) ==> e.component == Component::NazeBoard && e.reason
                == Reason::OutOfRange && first_out_of_range(self.values(), e.parameter as int),
    {
        let list = self.value_list();
        let r = check_values(Component::NazeBoard, &list);
        proof {
            if r is Ok {
                assert(in_range(ints_of(list@)[0]));
                assert(in_range(ints_of(list@)[1]));
                assert(in_range(ints_of(list@)[2]));
            }
        }
        r
    }

    /// How each parameter gets its value when none is given, in the order
    /// the parameters are declared.
    pub open spec fn rules() -> Seq<Rule> {
        seq![
            Rule::Fixed(30_000),
            Rule::Fixed(305_000),
            Rule::Derived { source: 0, num: 1, den: 2, plus: 10_000 },
        ]
    }

    /// The component's declaration: the default of each parameter.
    pub fn declaration() -> (r: Vec<Rule>)
        ensures
            r@ == Self::rules(),
    {
        let mut list: Vec<Rule> = Vec::new();
        list.push(Rule::Fixed(30_000));
        list.push(Rule::Fixed(305_000));
        list.push(Rule::Derived { source: 0, num: 1, den: 2, plus: 10_000 });
        assert(list@ =~= Self::rules());
        list
    }

    /// The parameter set with the given values, in declaration order, if
    /// there is one value for each parameter.
    pub fn from_values(values: &Vec<i64>) -> (r: Option<NazeBoard>)
        ensures
            r is Some <==> values.len() == 3,
            r matches Some(set) ==> set.values() == ints_of(values@),
    {
        if values.len() != 3 {
            return None;
        }
        let r = NazeBoard {
            hole_diameter: values[0],
            hole_distance: values[1],
            hole_padding_radius: values[2],
        };
        assert(r.values() =~= ints_of(values@));
        Some(r)
    }

    /// Builds the parameter set from the values given, by position; what is
    /// not given takes its default, and a derived default follows the value
    /// it derives from, given or not. A set with a fault is rejected.
    pub fn with_overrides(given: &Vec<Option<i64>>) -> (r: Result<NazeBoard, ParamError>)
        ensures
            r is Ok <==> consistent(Self::rules(), given@),
            r matches Ok(set) ==> set.wf() && forall|i: int|
                0 <= i < 3 ==> resolved(Self::rules(), given@, i) == Ok::<int, Reason>(
                    #[trigger] set.values()[i],
                ),
            r matches Err(e) ==> e.component == Component::NazeBoard && first_fault(
                Self::rules(),
                given@,
                e.parameter as int,
                e.reason,
            ),
    {
        let rules = Self::declaration();
        match resolve(Component::NazeBoard, &rules, given) {
            Ok(values) => {
                let set = Self::from_values(&values).unwrap();
                proof {
                    assert(in_range(values[0] as int));
                    assert(in_range(values[1] as int));
                    assert(in_range(values[2] as int));
                    assert forall|i: int| 0 <= i < 3 implies resolved(
                        Self::rules(),
                        given@,
                        i,
                    ) == Ok::<int, Reason>(#[trigger] set.values()[i]) by {
                        assert(set.values()[i] == values[i] as int);
                    }
                }
                Ok(set)
            },
            Err(e) => Err(e),
        }
    }

    /// With nothing given, every parameter resolves to its default.
    pub proof fn lemma_defaults_are_resolved()
        ensures
            forall|i: int|
                0 <= i < 3 ==> (#[trigger] resolved(Self::rules(), Seq::empty(), i)) == Ok::<
                    int,
                    Reason,
                >(Self::defaults().values()[i]),
    {
        let none = Seq::<Option<i64>>::empty();
        reveal_with_fuel(outcome, 3);
            assert(resolved(Self::rules(), none, 0) == Ok::<int, Reason>(Self::defaults().values()[0]));
            assert(resolved(Self::rules(), none, 1) == Ok::<int, Reason>(Self::defaults().values()[1]));
            assert(resolved(Self::rules(), none, 2) == Ok::<int, Reason>(Self::defaults().values()[2]));
    }
}

impl DysEsc {
    /// The dimensions in the order they are declared.
    pub open spec fn values(&self) -> Seq<int> {
        seq![
            self.x_length as int,
            self.y_length as int,
            self.extension_width as int,
        ]
    }

    /// The dimensions in the order they are declared.
    pub fn value_list(&self) -> (r: Vec<i64>)
        ensures
            ints_of(r@) == self.values(),
            r@.len() == 3,
    {
        let mut list: Vec<i64> = Vec::new();
        list.push(self.x_length);
        list.push(self.y_length);
        list.push(self.extension_width);
        assert(ints_of(list@) =~= self.values());
        list
    }

    /// Checks every dimension against the magnitude the builders accept;
    /// the error names the first that exceeds it.
    pub fn validate(&self) -> (r: Result<(), ParamError>)
        ensures
            r is Ok <==> self.wf(),
            r matches Err(e) ==> e.component == Component::DysEsc && e.reason
                == Reason::OutOfRange && first_out_of_range(self.values(), e.parameter as int),
    {
        let list = self.value_list();
        let r = check_values(Component::DysEsc, &list);
        proof {
            if r is Ok {
                assert(in_range(ints_of(list@)[0]));
                assert(in_range(ints_of(list@)[1]));
                assert(in_range(ints_of(list@)[2]));
            }
        }
        r
    }

    /// How each parameter gets its value when none is given, in the order
    /// the parameters are declared.
    pub open spec fn rules() -> Seq<Rule> {
        seq![
            Rule::Fixed(400_000),
            Rule::Fixed(433_000),
            Rule::Fixed(300_000),
        ]
    }

    /// The component's declaration: the default of each parameter.
    pub fn declaration() -> (r: Vec<Rule>)
        ensures
            r@ == Self::rules(),
    {
        let mut list: Vec<Rule> = Vec::new();
        list.push(Rule::Fixed(400_000));
        list.push(Rule::Fixed(433_000));
        list.push(Rule::Fixed(300_000));
        assert(list@ =~= Self::rules());
        list
    }

    /// The parameter set with the given values, in declaration order, if
    /// there is one value for each parameter.
    pub fn from_values(values: &Vec<i64>) -> (r: Option<DysEsc>)
        ensures
            r is Some <==> values.len() == 3,
            r matches Some(set) ==> set.values() == ints_of(values@),
    {
        if values.len() != 3 {
            return None;
        }
        let r = DysEsc {
            x_length: values[0],
            y_length: values[1],
            extension_width: values[2],
        };
        assert(r.values() =~= ints_of(values@));
        Some(r)
    }

    /// Builds the parameter set from the values given, by position; what is
    /// not given takes its default, and a derived default follows the value
    /// it derives from, given or not. A set with a fault is rejected.
    pub fn with_overrides(given: &Vec<Option<i64>>) -> (r: Result<DysEsc, ParamError>)
        ensures
            r is Ok <==> consistent(Self::rules(), given@),
            r matches Ok(set) ==> set.wf() && forall|i: int|
                0 <= i < 3 ==> resolved(Self::rules(), given@, i) == Ok::<int, Reason>(
                    #[trigger] set.values()[i],
                ),
            r matches Err(e) ==> e.component == Component::DysEsc && first_fault(
                Self::rules(),
                given@,
                e.parameter as int,
                e.reason,
            ),
    {
        let rules = Self::declaration();
        match resolve(Component::DysEsc, &rules, given) {
            Ok(values) => {
                let set = Self::from_values(&values).unwrap();
                proof {
                    assert(in_range(values[0] as int));
                    assert(in_range(values[1] as int));
                    assert(in_range(values[2] as int));
                    assert forall|i: int| 0 <= i < 3 implies resolved(
                        Self::rules(),
                        given@,
                        i,
                    ) == Ok::<int, Reason>(#[trigger] set.values()[i]) by {
                        assert(set.values()[i] == values[i] as int);
                    }
                }
                Ok(set)
            },
            Err(e) => Err(e),
        }
    }

    /// With nothing given, every parameter resolves to its default.
    pub proof fn lemma_defaults_are_resolved()
        ensures
            forall|i: int|
                0 <= i < 3 ==> (#[trigger] resolved(Self::rules(), Seq::empty(), i)) == Ok::<
                    int,
                    Reason,
                >(Self::defaults().values()[i]),
    {
        let none = Seq::<Option<i64>>::empty();
        reveal_with_fuel(outcome, 3);
            assert(resolved(Self::rules(), none, 0) == Ok::<int, Reason>(Self::defaults().values()[0]));
            assert(resolved(Self::rules(), none, 1) == Ok::<int, Reason>(Self::defaults().values()[1]));
            assert(resolved(Self::rules(), none, 2) == Ok::<int, Reason>(Self::defaults().values()[2]));
    }
}

impl BoardCamera {
    /// The dimensions in the order they are declared.
    pub open spec fn values(&self) -> Seq<int> {
        seq![
            self.width as int,
            self.thickness as int,
            self.lens_diameter as int,
            self.lens_length as int,
            self.snowproof_padding_radius as int,
        ]
    }

    /// The dimensions in the order they are declared.
    pub fn value_list(&self) -> (r: Vec<i64>)
        ensures
            ints_of(r@) == self.values(),
            r@.len() == 5,
    {
        let mut list: Vec<i64> = Vec::new();
        list.push(self.width);
        list.push(self.thickness);
        list.push(self.lens_diameter);
        list.push(self.lens_length);
        list.push(self.snowproof_padding_radius);
        assert(ints_of(list@) =~= self.values());
        list
    }

    /// Checks every dimension against the magnitude the builders accept;
    /// the error names the first that exceeds it.
    pub fn validate(&self) -> (r: Result<(), ParamError>)
        ensures
            r is Ok <==> self.wf(),
            r matches Err(e) ==> e.component == Component::BoardCamera && e.reason
                == Reason::OutOfRange && first_out_of_range(self.values(), e.parameter as int),
    {
        let list = self.value_list();
        let r = check_values(Component::BoardCamera, &list);
        proof {
            if r is Ok {
                assert(in_range(ints_of(list@)[0]));
                assert(in_range(ints_of(list@)[1]));
                assert(in_range(ints_of(list@)[2]));
                assert(in_range(ints_of(list@)[3]));
                assert(in_range(ints_of(list@)[4]));
            }
        }
        r
    }

    /// How each parameter gets its value when none is given, in the order
    /// the parameters are declared.
    pub open spec fn rules() -> Seq<Rule> {
        seq![
            Rule::Fixed(320_000),
            Rule::Fixed(40_000),
            Rule::Fixed(170_000),
            Rule::Fixed(240_000),
            Rule::Fixed(30_000),
        ]
    }

    /// The component's declaration: the default of each parameter.
    pub fn declaration() -> (r: Vec<Rule>)
        ensures
            r@ == Self::rules(),
    {
        let mut list: Vec<Rule> = Vec::new();
        list.push(Rule::Fixed(320_000));
        list.push(Rule::Fixed(40_000));
        list.push(Rule::Fixed(170_000));
        list.push(Rule::Fixed(240_000));
        list.push(Rule::Fixed(30_000));
        assert(list@ =~= Self::rules());
        list
    }

    /// The parameter set with the given values, in declaration order, if
    /// there is one value for each parameter.
    pub fn from_values(values: &Vec<i64>) -> (r: Option<BoardCamera>)
        ensures
            r is Some <==> values.len() == 5,
            r matches Some(set) ==> set.values() == ints_of(values@),
    {
        if values.len() != 5 {
            return None;
        }
        let r = BoardCamera {
            width: values[0],
            thickness: values[1],
            lens_diameter: values[2],
            lens_length: values[3],
            snowproof_padding_radius: values[4],
        };
        assert(r.values() =~= ints_of(values@));
        Some(r)
    }

    /// Builds the parameter set from the values given, by position; what is
    /// not given takes its default, and a derived default follows the value
    /// it derives from, given or not. A set with a fault is rejected.
    pub fn with_overrides(given: &Vec<Option<i64>>) -> (r: Result<BoardCamera, ParamError>)
        ensures
            r is Ok <==> consistent(Self::rules(), given@),
            r matches Ok(set) ==> set.wf() && forall|i: int|
                0 <= i < 5 ==> resolved(Self::rules(), given@, i) == Ok::<int, Reason>(
                    #[trigger] set.values()[i],
                ),
            r matches Err(e) ==> e.component == Component::BoardCamera && first_fault(
                Self::rules(),
                given@,
                e.parameter as int,
                e.reason,
            ),
    {
        let rules = Self::declaration();
        match resolve(Component::BoardCamera, &rules, given) {
            Ok(values) => {
                let set = Self::from_values(&values).unwrap();
                proof {
                    assert(in_range(values[0] as int));
                    assert(in_range(values[1] as int));
                    assert(in_range(values[2] as int));
                    assert(in_range(values[3] as int));
                    assert(in_range(values[4] as int));
                    assert forall|i: int| 0 <= i < 5 implies resolved(
                        Self::rules(),
                        given@,
                        i,
                    ) == Ok::<int, Reason>(#[trigger] set.values()[i]) by {
                        assert(set.values()[i] == values[i] as int);
                    }
                }
                Ok(set)
            },
            Err(e) => Err(e),
        }
    }

    /// With nothing given, every parameter resolves to its default.
    pub proof fn lemma_defaults_are_resolved()
        ensures
            forall|i: int|
                0 <= i < 5 ==> (#[trigger] resolved(Self::rules(), Seq::empty(), i)) == Ok::<
                    int,
                    Reason,
                >(Self::defaults().values()[i]),
    {
        let none = Seq::<Option<i64>>::empty();
        reveal_with_fuel(outcome, 3);
            assert(resolved(Self::rules(), none, 0) == Ok::<int, Reason>(Self::defaults().values()[0]));
            assert(resolved(Self::rules(), none, 1) == Ok::<int, Reason>(Self::defaults().values()[1]));
            assert(resolved(Self::rules(), none, 2) == Ok::<int, Reason>(Self::defaults().values()[2]));
            assert(resolved(Self::rules(), none, 3) == Ok::<int, Reason>(Self::defaults().values()[3]));
            assert(resolved(Self::rules(), none, 4) == Ok::<int, Reason>(Self::defaults().values()[4]));
    }
}

impl Esc {
    /// The dimensions in the order they are declared.
    pub open spec fn values(&self) -> Seq<int> {
        seq![
            self.width as int,
            self.length as int,
            self.thickness as int,
        ]
    }

    /// The dimensions in the order they are declared.
    pub fn value_list(&self) -> (r: Vec<i64>)
        ensures
            ints_of(r@) == self.values(),
            r@.len() == 3,
    {
        let mut list: Vec<i64> = Vec::new();
        list.push(self.width);
        list.push(self.length);
        list.push(self.thickness);
        assert(ints_of(list@) =~= self.values());
        list
    }

    /// Checks every dimension against the magnitude the builders accept;
    /// the error names the first that exceeds it.
    pub fn validate(&self) -> (r: Result<(), ParamError>)
        ensures
            r is Ok <==> self.wf(),
            r matches Err(e) ==> e.component == Component::Esc && e.reason
                == Reason::OutOfRange && first_out_of_range(self.values(), e.parameter as int),
    {
        let list = self.value_list();
        let r = check_values(Component::Esc, &list);
        proof {
            if r is Ok {
                assert(in_range(ints_of(list@)[0]));
                assert(in_range(ints_of(list@)[1]));
                assert(in_range(ints_of(list@)[2]));
            }
        }
        r
    }

    /// How each parameter gets its value when none is given, in the order
    /// the parameters are declared.
    pub open spec fn rules() -> Seq<Rule> {
        seq![
            Rule::Fixed(200_000),
            Rule::Fixed(250_000),
            Rule::Fixed(40_000),
        ]
    }

    /// The component's declaration: the default of each parameter.
    pub fn declaration() -> (r: Vec<Rule>)
        ensures
            r@ == Self::rules(),
    {
        let mut list: Vec<Rule> = Vec::new();
        list.push(Rule::Fixed(200_000));
        list.push(Rule::Fixed(250_000));
        list.push(Rule::Fixed(40_000));
        assert(list@ =~= Self::rules());
        list
    }

    /// The parameter set with the given values, in declaration order, if
    /// there is one value for each parameter.
    pub fn from_values(values: &Vec<i64>) -> (r: Option<Esc>)
        ensures
            r is Some <==> values.len() == 3,
            r matches Some(set) ==> set.values() == ints_of(values@),
    {
        if values.len() != 3 {
            return None;
        }
        let r = Esc {
            width: values[0],
            length: values[1],
            thickness: values[2],
        };
        assert(r.values() =~= ints_of(values@));
        Some(r)
    }

    /// Builds the parameter set from the values given, by position; what is
    /// not given takes its default, and a derived default follows the value
    /// it derives from, given or not. A set with a fault is rejected.
    pub fn with_overrides(given: &Vec<Option<i64>>) -> (r: Result<Esc, ParamError>)
        ensures
            r is Ok <==> consistent(Self::rules(), given@),
            r matches Ok(set) ==> set.wf() && forall|i: int|
                0 <= i < 3 ==> resolved(Self::rules(), given@, i) == Ok::<int, Reason>(
                    #[trigger] set.values()[i],
                ),
            r matches Err(e) ==> e.component == Component::Esc && first_fault(
                Self::rules(),
                given@,
                e.parameter as int,
                e.reason,
            ),
    {
        let rules = Self::declaration();
        match resolve(Component::Esc, &rules, given) {
            Ok(values) => {
                let set = Self::from_values(&values).unwrap();
                proof {
                    assert(in_range(values[0] as int));
                    assert(in_range(values[1] as int));
                    assert(in_range(values[2] as int));
                    assert forall|i: int| 0 <= i < 3 implies resolved(
                        Self::rules(),
                        given@,
                        i,
                    ) == Ok::<int, Reason>(#[trigger] set.values()[i]) by {
                        assert(set.values()[i] == values[i] as int);
                    }
                }
                Ok(set)
            },
            Err(e) => Err(e),
        }
    }

    /// With nothing given, every parameter resolves to its default.
    pub proof fn lemma_defaults_are_resolved()
        ensures
            forall|i: int|
                0 <= i < 3 ==> (#[trigger] resolved(Self::rules(), Seq::empty(), i)) == Ok::<
                    int,
                    Reason,
                >(Self::defaults().values()[i]),
    {
        let none = Seq::<Option<i64>>::empty();
        reveal_with_fuel(outcome, 3);
            assert(resolved(Self::rules(), none, 0) == Ok::<int, Reason>(Self::defaults().values()[0]));
            assert(resolved(Self::rules(), none, 1) == Ok::<int, Reason>(Self::defaults().values()[1]));
            assert(resolved(Self::rules(), none, 2) == Ok::<int, Reason>(Self::defaults().values()[2]));
    }
}

impl EscStack {
    /// The dimensions in the order they are declared.
    pub open spec fn values(&self) -> Seq<int> {
        seq![
            self.layer_thickness as int,
            self.esc.width as int,
            self.esc.length as int,
            self.esc.thickness as int,
            self.screw_padding as int,
        ]
    }

    /// The dimensions in the order they are declared.
    pub fn value_list(&self) -> (r: Vec<i64>)
        ensures
            ints_of(r@) == self.values(),
            r@.len() == 5,
    {
        let mut list: Vec<i64> = Vec::new();
        list.push(self.layer_thickness);
        list.push(self.esc.width);
        list.push(self.esc.length);
        list.push(self.esc.thickness);
        list.push(self.screw_padding);
        assert(ints_of(list@) =~= self.values());
        list
    }

    /// Checks every dimension against the magnitude the builders accept;
    /// the error names the first that exceeds it.
    pub fn validate(&self) -> (r: Result<(), ParamError>)
        ensures
            r is Ok <==> self.wf(),
            r matches Err(e) ==> e.component == Component::EscStack && e.reason
                == Reason::OutOfRange && first_out_of_range(self.values(), e.parameter as int),
    {
        let list = self.value_list();
        let r = check_values(Component::EscStack, &list);
        proof {
            if r is Ok {
                assert(in_range(ints_of(list@)[0]));
                assert(in_range(ints_of(list@)[1]));
                assert(in_range(ints_of(list@)[2]));
                assert(in_range(ints_of(list@)[3]));
                assert(in_range(ints_of(list@)[4]));
            }
        }
        r
    }

    /// How each parameter gets its value when none is given, in the order
    /// the parameters are declared.
    pub open spec fn rules() -> Seq<Rule> {
        seq![
            Rule::Fixed(20_000),
            Rule::Fixed(200_000),
            Rule::Fixed(250_000),
            Rule::Fixed(40_000),
            Rule::Fixed(20_000),
        ]
    }

    /// The component's declaration: the default of each parameter.
    pub fn declaration() -> (r: Vec<Rule>)
        ensures
            r@ == Self::rules(),
    {
        let mut list: Vec<Rule> = Vec::new();
        list.push(Rule::Fixed(20_000));
        list.push(Rule::Fixed(200_000));
        list.push(Rule::Fixed(250_000));
        list.push(Rule::Fixed(40_000));
        list.push(Rule::Fixed(20_000));
        assert(list@ =~= Self::rules());
        list
    }

    /// The parameter set with the given values, in declaration order, if
    /// there is one value for each parameter.
    pub fn from_values(values: &Vec<i64>) -> (r: Option<EscStack>)
        ensures
            r is Some <==> values.len() == 5,
            r matches Some(set) ==> set.values() == ints_of(values@),
    {
        if values.len() != 5 {
            return None;
        }
        let r = EscStack {
            layer_thickness: values[0],
            esc: Esc { width: values[1], length: values[2], thickness: values[3] },
            screw_padding: values[4],
        };
        assert(r.values() =~= ints_of(values@));
        Some(r)
    }

    /// Builds the parameter set from the values given, by position; what is
    /// not given takes its default, and a derived default follows the value
    /// it derives from, given or not. A set with a fault is rejected.
    pub fn with_overrides(given: &Vec<Option<i64>>) -> (r: Result<EscStack, ParamError>)
        ensures
            r is Ok <==> consistent(Self::rules(), given@),
            r matches Ok(set) ==> set.wf() && forall|i: int|
                0 <= i < 5 ==> resolved(Self::rules(), given@, i) == Ok::<int, Reason>(
                    #[trigger] set.values()[i],
                ),
            r matches Err(e) ==> e.component == Component::EscStack && first_fault(
                Self::rules(),
                given@,
                e.parameter as int,
                e.reason,
            ),
    {
        let rules = Self::declaration();
        match resolve(Component::EscStack, &rules, given) {
            Ok(values) => {
                let set = Self::from_values(&values).unwrap();
                proof {
                    assert(in_range(values[0] as int));
                    assert(in_range(values[1] as int));
                    assert(in_range(values[2] as int));
                    assert(in_range(values[3] as int));
                    assert(in_range(values[4] as int));
                    assert forall|i: int| 0 <= i < 5 implies resolved(
                        Self::rules(),
                        given@,
                        i,
                    ) == Ok::<int, Reason>(#[trigger] set.values()[i]) by {
                        assert(set.values()[i] == values[i] as int);
                    }
                }
                Ok(set)
            },
            Err(e) => Err(e),
        }
    }

    /// With nothing given, every parameter resolves to its default.
    pub proof fn lemma_defaults_are_resolved()
        ensures
            forall|i: int|
                0 <= i < 5 ==> (#[trigger] resolved(Self::rules(), Seq::empty(), i)) == Ok::<
                    int,
                    Reason,
                >(Self::defaults().values()[i]),
    {
        let none = Seq::<Option<i64>>::empty();
        reveal_with_fuel(outcome, 3);
            assert(resolved(Self::rules(), none, 0) == Ok::<int, Reason>(Self::defaults().values()[0]));
            assert(resolved(Self::rules(), none, 1) == Ok::<int, Reason>(Self::defaults().values()[1]));
            assert(resolved(Self::rules(), none, 2) == Ok::<int, Reason>(Self::defaults().values()[2]));
            assert(resolved(Self::rules(), none, 3) == Ok::<int, Reason>(Self::defaults().values()[3]));
            assert(resolved(Self::rules(), none, 4) == Ok::<int, Reason>(Self::defaults().values()[4]));
    }
}

impl TricopterBody {
    /// The dimensions in the order they are declared.
    pub open spec fn values(&self) -> Seq<int> {
        seq![
            self.radius as int,
            self.top_height as int,
            self.height as int,
            self.outer_width as int,
            self.back_outer_width as int,
            self.inner_width as int,
            self.center_width as int,
            self.back_block_length_factor as int,
            self.arm_width as int,
            self.front_block_x as int,
            self.front_section_width as int,
            self.front_section_length as int,
            self.front_section_corner_radius as int,
            self.canopy_thickness as int,
            self.edge_thickness as int,
            self.edge_padding as int,
            self.edge_height as int,
            self.camera_box_length as int,
            self.camera_box_edge_width as int,
            self.camera_box_edge_padding as int,
            self.motor_wire_hole_radius as int,
            self.camera_offset_from_top as int,
            self.mounting_screw_outline_radius as int,
            self.canopy_max_height as int,
            self.screw_mount_height as int,
            self.canopy_bottom_min_height as int,
            self.screwhead_diameter as int,
            self.side_plate_arc_width as int,
            self.side_plate_arc_height as int,
            self.side_plate_thickness as int,
            self.side_plate_mount_length as int,
            self.side_plate_front_screw_top_offset as int,
        ]
    }

    /// The dimensions in the order they are declared.
    pub fn value_list(&self) -> (r: Vec<i64>)
        ensures
            ints_of(r@) == self.values(),
            r@.len() == 32,
    {
        let mut list: Vec<i64> = Vec::new();
        list.push(self.radius);
        list.push(self.top_height);
        list.push(self.height);
        list.push(self.outer_width);
        list.push(self.back_outer_width);
        list.push(self.inner_width);
        list.push(self.center_width);
        list.push(self.back_block_length_factor);
        list.push(self.arm_width);
        list.push(self.front_block_x);
        list.push(self.front_section_width);
        list.push(self.front_section_length);
        list.push(self.front_section_corner_radius);
        list.push(self.canopy_thickness);
        list.push(self.edge_thickness);
        list.push(self.edge_padding);
        list.push(self.edge_height);
        list.push(self.camera_box_length);
        list.push(self.camera_box_edge_width);
        list.push(self.camera_box_edge_padding);
        list.push(self.motor_wire_hole_radius);
        list.push(self.camera_offset_from_top);
        list.push(self.mounting_screw_outline_radius);
        list.push(self.canopy_max_height);
        list.push(self.screw_mount_height);
        list.push(self.canopy_bottom_min_height);
        list.push(self.screwhead_diameter);
        list.push(self.side_plate_arc_width);
        list.push(self.side_plate_arc_height);
        list.push(self.side_plate_thickness);
        list.push(self.side_plate_mount_length);
        list.push(self.side_plate_front_screw_top_offset);
        assert(ints_of(list@) =~= self.values());
        list
    }

    /// Checks every dimension against the magnitude the builders accept;
    /// the error names the first that exceeds it.
    pub fn validate(&self) -> (r: Result<(), ParamError>)
        ensures
            r is Ok <==> self.wf(),
            r matches Err(e) ==> e.component == Component::TricopterBody && e.reason
                == Reason::OutOfRange && first_out_of_range(self.values(), e.parameter as int),
    {
        let list = self.value_list();
        let r = check_values(Component::TricopterBody, &list);
        proof {
            if r is Ok {
                assert(in_range(ints_of(list@)[0]));
                assert(in_range(ints_of(list@)[1]));
                assert(in_range(ints_of(list@)[2]));
                assert(in_range(ints_of(list@)[3]));
                assert(in_range(ints_of(list@)[4]));
                assert(in_range(ints_of(list@)[5]));
                assert(in_range(ints_of(list@)[6]));
                assert(in_range(ints_of(list@)[7]));
                assert(in_range(ints_of(list@)[8]));
                assert(in_range(ints_of(list@)[9]));
                assert(in_range(ints_of(list@)[10]));
                assert(in_range(ints_of(list@)[11]));
                assert(in_range(ints_of(list@)[12]));
                assert(in_range(ints_of(list@)[13]));
                assert(in_range(ints_of(list@)[14]));
                assert(in_range(ints_of(list@)[15]));
                assert(in_range(ints_of(list@)[16]));
                assert(in_range(ints_of(list@)[17]));
                assert(in_range(ints_of(list@)[18]));
                assert(in_range(ints_of(list@)[19]));
                assert(in_range(ints_of(list@)[20]));
                assert(in_range(ints_of(list@)[21]));
                assert(in_range(ints_of(list@)[22]));
                assert(in_range(ints_of(list@)[23]));
                assert(in_range(ints_of(list@)[24]));
                assert(in_range(ints_of(list@)[25]));
                assert(in_range(ints_of(list@)[26]));
                assert(in_range(ints_of(list@)[27]));
                assert(in_range(ints_of(list@)[28]));
                assert(in_range(ints_of(list@)[29]));
                assert(in_range(ints_of(list@)[30]));
                assert(in_range(ints_of(list@)[31]));
            }
        }
        r
    }

    /// How each parameter gets its value when none is given, in the order
    /// the parameters are declared.
    pub open spec fn rules() -> Seq<Rule> {
        seq![
            Rule::Fixed(800_000),
            Rule::Fixed(50_000),
            Rule::Fixed(40_000),
            Rule::Fixed(230_000),
            Rule::Fixed(330_000),
            Rule::Fixed(500_000),
            Rule::Fixed(560_000),
            Rule::Fixed(500),
            Rule::Fixed(100_000),
            Rule::Fixed(300_000),
            Rule::Derived { source: 5, num: 1, den: 1, plus: 0 },
            Rule::Fixed(600_000),
            Rule::Fixed(20_000),
            Rule::Fixed(30_000),
            Rule::Derived { source: 13, num: 1, den: 2, plus: 0 },
            Rule::Fixed(2_500),
            Rule::Fixed(30_000),
            Rule::Fixed(200_000),
            Rule::Fixed(10_000),
            Rule::Fixed(5_000),
            Rule::Fixed(40_000),
            Rule::Fixed(100_000),
            Rule::Fixed(30_000),
            Rule::Fixed(310_000),
            Rule::Fixed(70_000),
            Rule::Derived { source: 24, num: 1, den: 1, plus: 0 },
            Rule::Fixed(65_000),
            Rule::Fixed(360_000),
            Rule::Fixed(190_000),
            Rule::Fixed(20_000),
            Rule::Fixed(150_000),
            Rule::Fixed(70_000),
        ]
    }

    /// The component's declaration: the default of each parameter.
    pub fn declaration() -> (r: Vec<Rule>)
        ensures
            r@ == Self::rules(),
    {
        let mut list: Vec<Rule> = Vec::new();
        list.push(Rule::Fixed(800_000));
        list.push(Rule::Fixed(50_000));
        list.push(Rule::Fixed(40_000));
        list.push(Rule::Fixed(230_000));
        list.push(Rule::Fixed(330_000));
        list.push(Rule::Fixed(500_000));
        list.push(Rule::Fixed(560_000));
        list.push(Rule::Fixed(500));
        list.push(Rule::Fixed(100_000));
        list.push(Rule::Fixed(300_000));
        list.push(Rule::Derived { source: 5, num: 1, den: 1, plus: 0 });
        list.push(Rule::Fixed(600_000));
        list.push(Rule::Fixed(20_000));
        list.push(Rule::Fixed(30_000));
        list.push(Rule::Derived { source: 13, num: 1, den: 2, plus: 0 });
        list.push(Rule::Fixed(2_500));
        list.push(Rule::Fixed(30_000));
        list.push(Rule::Fixed(200_000));
        list.push(Rule::Fixed(10_000));
        list.push(Rule::Fixed(5_000));
        list.push(Rule::Fixed(40_000));
        list.push(Rule::Fixed(100_000));
        list.push(Rule::Fixed(30_000));
        list.push(Rule::Fixed(310_000));
        list.push(Rule::Fixed(70_000));
        list.push(Rule::Derived { source: 24, num: 1, den: 1, plus: 0 });
        list.push(Rule::Fixed(65_000));
        list.push(Rule::Fixed(360_000));
        list.push(Rule::Fixed(190_000));
        list.push(Rule::Fixed(20_000));
        list.push(Rule::Fixed(150_000));
        list.push(Rule::Fixed(70_000));
        assert(list@ =~= Self::rules());
        list
    }

    /// The parameter set with the given values, in declaration order, if
    /// there is one value for each parameter.
    pub fn from_values(values: &Vec<i64>) -> (r: Option<TricopterBody>)
        ensures
            r is Some <==> values.len() == 32,
            r matches Some(set) ==> set.values() == ints_of(values@),
    {
        if values.len() != 32 {
            return None;
        }
        let r = TricopterBody {
            radius: values[0],
            top_height: values[1],
            height: values[2],
            outer_width: values[3],
            back_outer_width: values[4],
            inner_width: values[5],
            center_width: values[6],
            back_block_length_factor: values[7],
            arm_width: values[8],
            front_block_x: values[9],
            front_section_width: values[10],
            front_section_length: values[11],
            front_section_corner_radius: values[12],
            canopy_thickness: values[13],
            edge_thickness: values[14],
            edge_padding: values[15],
            edge_height: values[16],
            camera_box_length: values[17],
            camera_box_edge_width: values[18],
            camera_box_edge_padding: values[19],
            motor_wire_hole_radius: values[20],
            camera_offset_from_top: values[21],
            mounting_screw_outline_radius: values[22],
            canopy_max_height: values[23],
            screw_mount_height: values[24],
            canopy_bottom_min_height: values[25],
            screwhead_diameter: values[26],
            side_plate_arc_width: values[27],
            side_plate_arc_height: values[28],
            side_plate_thickness: values[29],
            side_plate_mount_length: values[30],
            side_plate_front_screw_top_offset: values[31],
        };
        assert(r.values() =~= ints_of(values@));
        Some(r)
    }

    /// Builds the parameter set from the values given, by position; what is
    /// not given takes its default, and a derived default follows the value
    /// it derives from, given or not. A set with a fault is rejected.
    pub fn with_overrides(given: &Vec<Option<i64>>) -> (r: Result<TricopterBody, ParamError>)
        ensures
            r is Ok <==> consistent(Self::rules(), given@),
            r matches Ok(set) ==> set.wf() && forall|i: int|
                0 <= i < 32 ==> resolved(Self::rules(), given@, i) == Ok::<int, Reason>(
                    #[trigger] set.values()[i],
                ),
            r matches Err(e) ==> e.component == Component::TricopterBody && first_fault(
                Self::rules(),
                given@,
                e.parameter as int,
                e.reason,
            ),
    {
        let rules = Self::declaration();
        match resolve(Component::TricopterBody, &rules, given) {
            Ok(values) => {
                let set = Self::from_values(&values).unwrap();
                proof {
                    assert(in_range(values[0] as int));
                    assert(in_range(values[1] as int));
                    assert(in_range(values[2] as int));
                    assert(in_range(values[3] as int));
                    assert(in_range(values[4] as int));
                    assert(in_range(values[5] as int));
                    assert(in_range(values[6] as int));
                    assert(in_range(values[7] as int));
                    assert(in_range(values[8] as int));
                    assert(in_range(values[9] as int));
                    assert(in_range(values[10] as int));
                    assert(in_range(values[11] as int));
                    assert(in_range(values[12] as int));
                    assert(in_range(values[13] as int));
                    assert(in_range(values[14] as int));
                    assert(in_range(values[15] as int));
                    assert(in_range(values[16] as int));
                    assert(in_range(values[17] as int));
                    assert(in_range(values[18] as int));
                    assert(in_range(values[19] as int));
                    assert(in_range(values[20] as int));
                    assert(in_range(values[21] as int));
                    assert(in_range(values[22] as int));
                    assert(in_range(values[23] as int));
                    assert(in_range(values[24] as int));
                    assert(in_range(values[25] as int));
                    assert(in_range(values[26] as int));
                    assert(in_range(values[27] as int));
                    assert(in_range(values[28] as int));
                    assert(in_range(values[29] as int));
                    assert(in_range(values[30] as int));
                    assert(in_range(values[31] as int));
                    assert forall|i: int| 0 <= i < 32 implies resolved(
                        Self::rules(),
                        given@,
                        i,
                    ) == Ok::<int, Reason>(#[trigger] set.values()[i]) by {
                        assert(set.values()[i] == values[i] as int);
                    }
                }
                Ok(set)
            },
            Err(e) => Err(e),
        }
    }

    /// With nothing given, every parameter resolves to its default.
    pub proof fn lemma_defaults_are_resolved()
        ensures
            forall|i: int|
                0 <= i < 32 ==> (#[trigger] resolved(Self::rules(), Seq::empty(), i)) == Ok::<
                    int,
                    Reason,
                >(Self::defaults().values()[i]),
    {
        let none = Seq::<Option<i64>>::empty();
        reveal_with_fuel(outcome, 3);
            assert(resolved(Self::rules(), none, 0) == Ok::<int, Reason>(Self::defaults().values()[0]));
            assert(resolved(Self::rules(), none, 1) == Ok::<int, Reason>(Self::defaults().values()[1]));
            assert(resolved(Self::rules(), none, 2) == Ok::<int, Reason>(Self::defaults().values()[2]));
            assert(resolved(Self::rules(), none, 3) == Ok::<int, Reason>(Self::defaults().values()[3]));
            assert(resolved(Self::rules(), none, 4) == Ok::<int, Reason>(Self::defaults().values()[4]));
            assert(resolved(Self::rules(), none, 5) == Ok::<int, Reason>(Self::defaults().values()[5]));
            assert(resolved(Self::rules(), none, 6) == Ok::<int, Reason>(Self::defaults().values()[6]));
            assert(resolved(Self::rules(), none, 7) == Ok::<int, Reason>(Self::defaults().values()[7]));
            assert(resolved(Self::rules(), none, 8) == Ok::<int, Reason>(Self::defaults().values()[8]));
            assert(resolved(Self::rules(), none, 9) == Ok::<int, Reason>(Self::defaults().values()[9]));
            assert(resolved(Self::rules(), none, 10) == Ok::<int, Reason>(Self::defaults().values()[10]));
            assert(resolved(Self::rules(), none, 11) == Ok::<int, Reason>(Self::defaults().values()[11]));
            assert(resolved(Self::rules(), none, 12) == Ok::<int, Reason>(Self::defaults().values()[12]));
            assert(resolved(Self::rules(), none, 13) == Ok::<int, Reason>(Self::defaults().values()[13]));
            assert(resolved(Self::rules(), none, 14) == Ok::<int, Reason>(Self::defaults().values()[14]));
            assert(resolved(Self::rules(), none, 15) == Ok::<int, Reason>(Self::defaults().values()[15]));
            assert(resolved(Self::rules(), none, 16) == Ok::<int, Reason>(Self::defaults().values()[16]));
            assert(resolved(Self::rules(), none, 17) == Ok::<int, Reason>(Self::defaults().values()[17]));
            assert(resolved(Self::rules(), none, 18) == Ok::<int, Reason>(Self::defaults().values()[18]));
            assert(resolved(Self::rules(), none, 19) == Ok::<int, Reason>(Self::defaults().values()[19]));
            assert(resolved(Self::rules(), none, 20) == Ok::<int, Reason>(Self::defaults().values()[20]));
            assert(resolved(Self::rules(), none, 21) == Ok::<int, Reason>(Self::defaults().values()[21]));
            assert(resolved(Self::rules(), none, 22) == Ok::<int, Reason>(Self::defaults().values()[22]));
            assert(resolved(Self::rules(), none, 23) == Ok::<int, Reason>(Self::defaults().values()[23]));
            assert(resolved(Self::rules(), none, 24) == Ok::<int, Reason>(Self::defaults().values()[24]));
            assert(resolved(Self::rules(), none, 25) == Ok::<int, Reason>(Self::defaults().values()[25]));
            assert(resolved(Self::rules(), none, 26) == Ok::<int, Reason>(Self::defaults().values()[26]));
            assert(resolved(Self::rules(), none, 27) == Ok::<int, Reason>(Self::defaults().values()[27]));
            assert(resolved(Self::rules(), none, 28) == Ok::<int, Reason>(Self::defaults().values()[28]));
            assert(resolved(Self::rules(), none, 29) == Ok::<int, Reason>(Self::defaults().values()[29]));
            assert(resolved(Self::rules(), none, 30) == Ok::<int, Reason>(Self::defaults().values()[30]));
            assert(resolved(Self::rules(), none, 31) == Ok::<int, Reason>(Self::defaults().values()[31]));
    }
}

impl ServoMount {
    /// The dimensions in the order they are declared.
    pub open spec fn values(&self) -> Seq<int> {
        seq![
            self.servo_width as int,
            self.servo_depth as int,
            self.servo_height as int,
            self.servo_tab_height as int,
            self.boom_width as int,
            self.side_thickness as int,
            self.prop_clearance as int,
            self.top_offset as int,
        ]
    }

    /// The dimensions in the order they are declared.
    pub fn value_list(&self) -> (r: Vec<i64>)
        ensures
            ints_of(r@) == self.values(),
            r@.len() == 8,
    {
        let mut list: Vec<i64> = Vec::new();
        list.push(self.servo_width);
        list.push(self.servo_depth);
        list.push(self.servo_height);
        list.push(self.servo_tab_height);
        list.push(self.boom_width);
        list.push(self.side_thickness);
        list.push(self.prop_clearance);
        list.push(self.top_offset);
        assert(ints_of(list@) =~= self.values());
        list
    }

    /// Checks every dimension against the magnitude the builders accept;
    /// the error names the first that exceeds it.
    pub fn validate(&self) -> (r: Result<(), ParamError>)
        ensures
            r is Ok <==> self.wf(),
            r matches Err(e) ==> e.component == Component::ServoMount && e.reason
                == Reason::OutOfRange && first_out_of_range(self.values(), e.parameter as int),
    {
        let list = self.value_list();
        let r = check_values(Component::ServoMount, &list);
        proof {
            if r is Ok {
                assert(in_range(ints_of(list@)[0]));
                assert(in_range(ints_of(list@)[1]));
                assert(in_range(ints_of(list@)[2]));
                assert(in_range(ints_of(list@)[3]));
                assert(in_range(ints_of(list@)[4]));
                assert(in_range(ints_of(list@)[5]));
                assert(in_range(ints_of(list@)[6]));
                assert(in_range(ints_of(list@)[7]));
            }
        }
        r
    }

    /// How each parameter gets its value when none is given, in the order
    /// the parameters are declared.
    pub open spec fn rules() -> Seq<Rule> {
        seq![
            Rule::Fixed(122_500),
            Rule::Fixed(220_000),
            Rule::Fixed(280_000),
            Rule::Fixed(46_000),
            Rule::Fixed(110_000),
            Rule::Fixed(20_000),
            Rule::Fixed(100_000),
            Rule::Fixed(70_000),
        ]
    }

    /// The component's declaration: the default of each parameter.
    pub fn declaration() -> (r: Vec<Rule>)
        ensures
            r@ == Self::rules(),
    {
        let mut list: Vec<Rule> = Vec::new();
        list.push(Rule::Fixed(122_500));
        list.push(Rule::Fixed(220_000));
        list.push(Rule::Fixed(280_000));
        list.push(Rule::Fixed(46_000));
        list.push(Rule::Fixed(110_000));
        list.push(Rule::Fixed(20_000));
        list.push(Rule::Fixed(100_000));
        list.push(Rule::Fixed(70_000));
        assert(list@ =~= Self::rules());
        list
    }

    /// The parameter set with the given values, in declaration order, if
    /// there is one value for each parameter.
    pub fn from_values(values: &Vec<i64>) -> (r: Option<ServoMount>)
        ensures
            r is Some <==> values.len() == 8,
            r matches Some(set) ==> set.values() == ints_of(values@),
    {
        if values.len() != 8 {
            return None;
        }
        let r = ServoMount {
            servo_width: values[0],
            servo_depth: values[1],
            servo_height: values[2],
            servo_tab_height: values[3],
            boom_width: values[4],
            side_thickness: values[5],
            prop_clearance: values[6],
            top_offset: values[7],
        };
        assert(r.values() =~= ints_of(values@));
        Some(r)
    }

    /// Builds the parameter set from the values given, by position; what is
    /// not given takes its default, and a derived default follows the value
    /// it derives from, given or not. A set with a fault is rejected.
    pub fn with_overrides(given: &Vec<Option<i64>>) -> (r: Result<ServoMount, ParamError>)
        ensures
            r is Ok <==> consistent(Self::rules(), given@),
            r matches Ok(set) ==> set.wf() && forall|i: int|
                0 <= i < 8 ==> resolved(Self::rules(), given@, i) == Ok::<int, Reason>(
                    #[trigger] set.values()[i],
                ),
            r matches Err(e) ==> e.component == Component::ServoMount && first_fault(
                Self::rules(),
                given@,
                e.parameter as int,
                e.reason,
            ),
    {
        let rules = Self::declaration();
        match resolve(Component::ServoMount, &rules, given) {
            Ok(values) => {
                let set = Self::from_values(&values).unwrap();
                proof {
                    assert(in_range(values[0] as int));
                    assert(in_range(values[1] as int));
                    assert(in_range(values[2] as int));
                    assert(in_range(values[3] as int));
                    assert(in_range(values[4] as int));
                    assert(in_range(values[5] as int));
                    assert(in_range(values[6] as int));
                    assert(in_range(values[7] as int));
                    assert forall|i: int| 0 <= i < 8 implies resolved(
                        Self::rules(),
                        given@,
                        i,
                    ) == Ok::<int, Reason>(#[trigger] set.values()[i]) by {
                        assert(set.values()[i] == values[i] as int);
                    }
                }
                Ok(set)
            },
            Err(e) => Err(e),
        }
    }

    /// With nothing given, every parameter resolves to its default.
    pub proof fn lemma_defaults_are_resolved()
        ensures
            forall|i: int|
                0 <= i < 8 ==> (#[trigger] resolved(Self::rules(), Seq::empty(), i)) == Ok::<
                    int,
                    Reason,
                >(Self::defaults().values()[i]),
    {
        let none = Seq::<Option<i64>>::empty();
        reveal_with_fuel(outcome, 3);
            assert(resolved(Self::rules(), none, 0) == Ok::<int, Reason>(Self::defaults().values()[0]));
            assert(resolved(Self::rules(), none, 1) == Ok::<int, Reason>(Self::defaults().values()[1]));
            assert(resolved(Self::rules(), none, 2) == Ok::<int, Reason>(Self::defaults().values()[2]));
            assert(resolved(Self::rules(), none, 3) == Ok::<int, Reason>(Self::defaults().values()[3]));
            assert(resolved(Self::rules(), none, 4) == Ok::<int, Reason>(Self::defaults().values()[4]));
            assert(resolved(Self::rules(), none, 5) == Ok::<int, Reason>(Self::defaults().values()[5]));
            assert(resolved(Self::rules(), none, 6) == Ok::<int, Reason>(Self::defaults().values()[6]));
            assert(resolved(Self::rules(), none, 7) == Ok::<int, Reason>(Self::defaults().values()[7]));
    }
}

} // verus!
