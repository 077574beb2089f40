use scip_core::call::{EngineCall, Reply, Step};
use scip_core::constraint::{ConsData, Constraint};
use scip_core::error::Error;
use scip_core::machine::{Phase, Source};
use scip_core::model::Model;
use scip_core::reals::Real;
use scip_core::retcode::{Retcode, OKAY};
use scip_core::setting::{ObjSense, ParamSetting};
use scip_core::status::Status;
use scip_core::variable::{VarData, VarType, Variable};

fn val(x: f64) -> Real {
    Real::from_bits(x.to_bits())
}

fn num(r: Real) -> f64 {
    f64::from_bits(r.to_bits())
}

/// A stand-in for the engine. It answers every call with success unless told
/// otherwise, numbers the variables it is given, and keeps count of what it
/// was asked.
struct Engine {
    calls: Vec<EngineCall>,
    next_index: i32,
    created_vars: Vec<usize>,
    released_vars: Vec<usize>,
    created_conss: Vec<usize>,
    released_conss: Vec<usize>,
    time_limit: Option<f64>,
    fail_on: Option<(usize, i32)>,
}

impl Engine {
    fn new() -> Engine {
        Engine {
            calls: Vec::new(),
            next_index: 0,
            created_vars: Vec::new(),
            released_vars: Vec::new(),
            created_conss: Vec::new(),
            released_conss: Vec::new(),
            time_limit: None,
            fail_on: None,
        }
    }

    /// Makes the call with the given number, counted from 0 over all calls,
    /// fail with `code`.
    fn fail_call(&mut self, number: usize, code: i32) {
        self.fail_on = Some((number, code));
    }

    /// The problem `max 3 x1 + 4 x2` with `2 x1 + x2 <= 100` and
    /// `x1 + 2 x2 <= 80` over the integers from 0 on.
    fn simple_problem() -> (Vec<VarData>, Vec<ConsData>) {
        let vars = vec![
            VarData {
                index: 0,
                name: "x1".to_string(),
                obj: val(3.),
                lb: val(0.),
                ub: val(f64::INFINITY),
                var_type: 1,
            },
            VarData {
                index: 1,
                name: "x2".to_string(),
                obj: val(4.),
                lb: val(0.),
                ub: val(f64::INFINITY),
                var_type: 1,
            },
        ];
        let conss = vec![
            ConsData {
                name: "c1".to_string(),
                lhs: val(-f64::INFINITY),
                rhs: val(100.),
                terms: vec![(0, val(2.)), (1, val(1.))],
            },
            ConsData {
                name: "c2".to_string(),
                lhs: val(-f64::INFINITY),
                rhs: val(80.),
                terms: vec![(0, val(1.)), (1, val(2.))],
            },
        ];
        (vars, conss)
    }

    fn answer(&mut self, call: EngineCall) -> Reply {
        let number = self.calls.len();
        let code = match self.fail_on {
            Some((n, code)) if n == number => code,
            _ => OKAY,
        };
        let reply = match &call {
            EngineCall::ReadProb { .. } => {
                let (vars, conss) = Engine::simple_problem();
                Reply::Loaded { code, vars, conss }
            }
            EngineCall::CreateVar { slot, .. } => {
                if code == OKAY {
                    self.created_vars.push(*slot);
                }
                Reply::Code(code)
            }
            EngineCall::AddVar { .. } => {
                let index = self.next_index;
                if code == OKAY {
                    self.next_index += 1;
                }
                Reply::Added { code, index }
            }
            EngineCall::ReleaseVar { slot } => {
                self.released_vars.push(*slot);
                Reply::Code(code)
            }
            EngineCall::CreateConsLinear { slot, .. } => {
                if code == OKAY {
                    self.created_conss.push(*slot);
                }
                Reply::Code(code)
            }
            EngineCall::ReleaseCons { slot } => {
                self.released_conss.push(*slot);
                Reply::Code(code)
            }
            EngineCall::SetRealParam { param, value } => {
                if param == "limits/time" {
                    self.time_limit = Some(num(*value));
                }
                Reply::Code(code)
            }
            EngineCall::Solve => {
                if self.time_limit == Some(0.) {
                    Reply::Solved { code, status: 5, objective: val(-1e20), best: None }
                } else {
                    Reply::Solved {
                        code,
                        status: 11,
                        objective: val(200.),
                        best: Some(vec![val(40.), val(20.)]),
                    }
                }
            }
            _ => Reply::Code(code),
        };
        self.calls.push(call);
        reply
    }
}

/// Makes `first` and every call that follows from it, until the operation
/// ends.
fn drive(model: &mut Model, engine: &mut Engine, first: EngineCall) -> Step {
    let mut call = first;
    loop {
        let reply = engine.answer(call);
        assert!(model.expects(&reply));
        match model.resume(reply) {
            Step::Call(next) => call = next,
            end => {
                assert!(model.is_idle());
                return end;
            }
        }
    }
}

fn done(step: Step) {
    assert!(matches!(step, Step::Done));
}

fn variable(step: Step) -> Variable {
    match step {
        Step::Variable(v) => v,
        other => panic!("no variable: {:?}", other),
    }
}

fn constraint(step: Step) -> Constraint {
    match step {
        Step::Constraint(c) => c,
        other => panic!("no constraint: {:?}", other),
    }
}

fn add_var(
    model: &mut Model,
    engine: &mut Engine,
    lb: f64,
    ub: f64,
    obj: f64,
    name: &str,
    var_type: VarType,
) -> Variable {
    let call = model.add_var(val(lb), val(ub), val(obj), name, var_type).unwrap();
    variable(drive(model, engine, call))
}

fn add_cons(
    model: &mut Model,
    engine: &mut Engine,
    vars: &[&Variable],
    coefs: &[f64],
    lhs: f64,
    rhs: f64,
    name: &str,
) -> Constraint {
    let coefs: Vec<Real> = coefs.iter().map(|c| val(*c)).collect();
    let call = model.add_cons(vars, &coefs, val(lhs), val(rhs), name).unwrap();
    constraint(drive(model, engine, call))
}

fn include_default_plugins(model: &mut Model, engine: &mut Engine) {
    let call = model.include_default_plugins().unwrap();
    done(drive(model, engine, call));
}

fn create_prob(model: &mut Model, engine: &mut Engine, name: &str) {
    let call = model.create_prob(name).unwrap();
    done(drive(model, engine, call));
}

fn read_prob(model: &mut Model, engine: &mut Engine, filename: &str) {
    let call = model.read_prob(filename).unwrap();
    done(drive(model, engine, call));
}

fn hide_output(model: &mut Model, engine: &mut Engine) {
    let call = model.hide_output();
    done(drive(model, engine, call));
}

fn solve(model: &mut Model, engine: &mut Engine) {
    let call = model.solve();
    done(drive(model, engine, call));
}

fn set_obj_sense(model: &mut Model, engine: &mut Engine, sense: ObjSense) {
    let call = model.set_obj_sense(sense);
    done(drive(model, engine, call));
}

#[test]
fn solve_from_lp_file() {
    let mut engine = Engine::new();
    let mut model = Model::new(OKAY, 1).unwrap();
    include_default_plugins(&mut model, &mut engine);
    read_prob(&mut model, &mut engine, "data/test/simple.lp");
    hide_output(&mut model, &mut engine);
    solve(&mut model, &mut engine);
    let status = model.get_status();
    assert_eq!(status, Status::Optimal);

    let obj_val = model.get_obj_val();
    assert_eq!(num(obj_val), 200.);

    let sol = model.get_best_sol();
    let vars = model.get_vars();
    assert_eq!(vars.len(), 2);
    assert_eq!(num(sol.get_var_val(&vars[0])), 40.);
    assert_eq!(num(sol.get_var_val(&vars[1])), 20.);
}

#[test]
fn set_time_limit() {
    let mut engine = Engine::new();
    let mut model = Model::new(OKAY, 1).unwrap();
    include_default_plugins(&mut model, &mut engine);
    hide_output(&mut model, &mut engine);
    read_prob(&mut model, &mut engine, "data/test/simple.lp");
    let call = model.set_real_param("limits/time", val(0.));
    assert_eq!(
        call,
        EngineCall::SetRealParam { param: "limits/time".to_string(), value: val(0.) }
    );
    done(drive(&mut model, &mut engine, call));
    solve(&mut model, &mut engine);
    let status = model.get_status();
    assert_eq!(status, Status::TimeLimit);
    assert!(!model.has_best_sol());
}

#[test]
fn add_variable() {
    let mut engine = Engine::new();
    let mut model = Model::new(OKAY, 1).unwrap();
    include_default_plugins(&mut model, &mut engine);
    create_prob(&mut model, &mut engine, "test");
    set_obj_sense(&mut model, &mut engine, ObjSense::Maximize);
    hide_output(&mut model, &mut engine);
    let x1 = add_var(&mut model, &mut engine, 0., f64::INFINITY, 3., "x1", VarType::Integer);
    let x2 = add_var(&mut model, &mut engine, 0., f64::INFINITY, 4., "x2", VarType::Continuous);
    assert_eq!(model.get_n_vars(), 2);
    assert_eq!(model.get_vars().len(), 2);
    assert!(x1.slot() != x2.slot());
    assert!(x1.get_type() == VarType::Integer);
    assert!(x2.get_type() == VarType::Continuous);
    assert!(x1.get_name() == "x1");
    assert!(x2.get_name() == "x2");
    assert!(num(x1.get_obj()) == 3.);
    assert!(num(x2.get_obj()) == 4.);
}

#[test]
fn build_model_with_functions() {
    let mut engine = Engine::new();
    let mut model = Model::new(OKAY, 1).unwrap();
    include_default_plugins(&mut model, &mut engine);
    create_prob(&mut model, &mut engine, "test");
    set_obj_sense(&mut model, &mut engine, ObjSense::Maximize);
    hide_output(&mut model, &mut engine);
    let x1 = add_var(&mut model, &mut engine, 0., f64::INFINITY, 3., "x1", VarType::Integer);
    let x2 = add_var(&mut model, &mut engine, 0., f64::INFINITY, 4., "x2", VarType::Integer);

    assert_eq!(model.get_vars().len(), 2);
    add_cons(&mut model, &mut engine, &[&x1, &x2], &[2., 1.], -f64::INFINITY, 100., "c1");
    add_cons(&mut model, &mut engine, &[&x1, &x2], &[1., 2.], -f64::INFINITY, 80., "c2");

    assert_eq!(model.get_n_conss(), 2);
    let conss = model.get_conss();
    assert_eq!(conss.len(), 2);
    assert_eq!(conss[0].get_name(), "c1");
    assert_eq!(conss[1].get_name(), "c2");

    solve(&mut model, &mut engine);

    let status = model.get_status();
    assert_eq!(status, Status::Optimal);

    let obj_val = model.get_obj_val();
    assert_eq!(num(obj_val), 200.);

    let sol = model.get_best_sol();
    let vars = model.get_vars();
    assert_eq!(vars.len(), 2);
    assert_eq!(num(sol.get_var_val(&vars[0])), 40.);
    assert_eq!(num(sol.get_var_val(&vars[1])), 20.);
}

#[test]
fn var_data() {
    let mut engine = Engine::new();
    let mut model = Model::new(OKAY, 1).unwrap();
    include_default_plugins(&mut model, &mut engine);
    create_prob(&mut model, &mut engine, "test");
    let call =
        Variable::new(&mut model, val(0.0), val(1.0), val(2.0), "x", VarType::Binary).unwrap();
    let var = variable(drive(&mut model, &mut engine, call));
    assert_eq!(var.get_index(), 0);
    assert_eq!(num(var.get_lb()), 0.0);
    assert_eq!(num(var.get_ub()), 1.0);
    assert_eq!(num(var.get_obj()), 2.0);
    assert_eq!(var.get_name(), "x");
    assert_eq!(var.get_type(), VarType::Binary);
}

#[test]
fn failed_allocation_yields_no_session() {
    assert_eq!(Model::new(-1, 7).unwrap_err(), Error::Engine(Retcode::NoMemory));
    assert_eq!(Model::new(0, 7).unwrap_err(), Error::Engine(Retcode::Error));
}

#[test]
fn fresh_session_is_empty_and_idle() {
    let model = Model::new(OKAY, 9).unwrap();
    assert_eq!(model.context(), 9);
    assert_eq!(model.epoch(), 0);
    assert!(model.is_idle());
    assert_eq!(model.phase(), Phase::Idle);
    assert!(!model.has_plugins());
    assert_eq!(model.source(), Source::Empty);
    assert_eq!(model.get_n_vars(), 0);
    assert_eq!(model.get_n_conss(), 0);
    assert_eq!(model.get_status(), Status::Unknown);
    assert!(!model.has_obj_val());
    assert!(!model.has_best_sol());
    assert!(!model.expects(&Reply::Code(OKAY)));
    assert_eq!(model.print_version(), EngineCall::PrintVersion);
    assert_eq!(model.free(), EngineCall::Free);
}

#[test]
fn registered_variable_reads_back_exactly() {
    let mut engine = Engine::new();
    let mut model = Model::new(OKAY, 3).unwrap();
    create_prob(&mut model, &mut engine, "p");
    let lb = val(-2.5);
    let ub = val(7.25);
    let obj = val(-0.0);
    let call = model.add_var(lb, ub, obj, "weight", VarType::ImplInt).unwrap();
    assert_eq!(
        call,
        EngineCall::CreateVar {
            slot: 0,
            name: "weight".to_string(),
            lb,
            ub,
            obj,
            var_type: 2,
        }
    );
    assert_eq!(model.phase(), Phase::VarCreate);
    let var = variable(drive(&mut model, &mut engine, call));
    assert_eq!(var.get_lb(), lb);
    assert_eq!(var.get_ub(), ub);
    assert_eq!(var.get_obj(), obj);
    assert_eq!(var.get_obj().to_bits(), (-0.0f64).to_bits());
    assert_eq!(var.get_name(), "weight");
    assert_eq!(var.get_type(), VarType::ImplInt);
    assert!(var.is_owned());
    assert!(var.is_in_pool());
    assert_eq!(var.context(), 3);
    assert_eq!(var.epoch(), model.epoch());
    assert!(model.knows_var(&var));
    let listed = model.get_vars();
    assert_eq!(listed.len(), 1);
    assert!(!listed[0].is_owned());
    assert_eq!(listed[0].get_lb(), lb);
    assert_eq!(listed[0].get_ub(), ub);
    assert_eq!(listed[0].get_name(), "weight");
    assert_eq!(listed[0].get_type(), VarType::ImplInt);
    assert_eq!(listed[0].get_index(), 0);
}

#[test]
fn counts_match_enumerations_throughout() {
    let mut engine = Engine::new();
    let mut model = Model::new(OKAY, 1).unwrap();
    assert_eq!(model.get_vars().len(), model.get_n_vars());
    create_prob(&mut model, &mut engine, "p");
    assert_eq!(model.get_vars().len(), model.get_n_vars());
    let mut held = Vec::new();
    for i in 0..5 {
        let name = format!("v{}", i);
        held.push(add_var(&mut model, &mut engine, 0., 1., 1., &name, VarType::Binary));
        assert_eq!(model.get_n_vars(), i + 1);
        assert_eq!(model.get_vars().len(), model.get_n_vars());
        assert_eq!(model.get_conss().len(), model.get_n_conss());
    }
    let refs: Vec<&Variable> = held.iter().collect();
    for i in 0..3 {
        let name = format!("c{}", i);
        add_cons(&mut model, &mut engine, &refs, &[1., 1., 1., 1., 1.], 0., 2., &name);
        assert_eq!(model.get_n_conss(), i + 1);
        assert_eq!(model.get_conss().len(), model.get_n_conss());
    }
    solve(&mut model, &mut engine);
    assert_eq!(model.get_vars().len(), model.get_n_vars());
    assert_eq!(model.get_conss().len(), model.get_n_conss());
    assert_eq!(model.get_n_vars(), 5);
    assert_eq!(model.get_n_conss(), 3);
}

#[test]
fn release_is_passed_on_once() {
    let mut engine = Engine::new();
    let mut model = Model::new(OKAY, 1).unwrap();
    create_prob(&mut model, &mut engine, "p");
    let x = add_var(&mut model, &mut engine, 0., 1., 1., "x", VarType::Binary);
    let y = add_var(&mut model, &mut engine, 0., 1., 1., "y", VarType::Binary);
    let c = add_cons(&mut model, &mut engine, &[&x, &y], &[1., 1.], 0., 1., "c");

    let call = model.release_var(&x).unwrap();
    assert_eq!(call, EngineCall::ReleaseVar { slot: 0 });
    assert_eq!(model.phase(), Phase::Release);
    done(drive(&mut model, &mut engine, call));
    assert_eq!(model.release_var(&x), Err(Error::AlreadyReleased));
    assert!(model.is_idle());
    assert_eq!(model.release_var(&x), Err(Error::AlreadyReleased));

    let call = model.release_cons(&c).unwrap();
    assert_eq!(call, EngineCall::ReleaseCons { slot: 0 });
    done(drive(&mut model, &mut engine, call));
    assert_eq!(model.release_cons(&c), Err(Error::AlreadyReleased));

    let call = model.release_var(&y).unwrap();
    done(drive(&mut model, &mut engine, call));

    assert_eq!(engine.created_vars, vec![0, 1]);
    assert_eq!(engine.released_vars, vec![0, 1]);
    assert_eq!(engine.created_conss, vec![0]);
    assert_eq!(engine.released_conss, vec![0]);
    assert_eq!(model.get_n_vars(), 2);
    assert_eq!(model.get_n_conss(), 1);
}

#[test]
fn borrowed_handles_release_nothing() {
    let mut engine = Engine::new();
    let mut model = Model::new(OKAY, 1).unwrap();
    create_prob(&mut model, &mut engine, "p");
    let x = add_var(&mut model, &mut engine, 0., 1., 1., "x", VarType::Binary);
    let c = add_cons(&mut model, &mut engine, &[&x], &[1.], 0., 1., "c");
    let listed = model.get_vars();
    assert_eq!(model.release_var(&listed[0]), Err(Error::NotOwned));
    assert_eq!(model.release_var(&x.borrowed()), Err(Error::NotOwned));
    let listed = model.get_conss();
    assert_eq!(model.release_cons(&listed[0]), Err(Error::NotOwned));
    assert_eq!(model.release_cons(&c.borrowed()), Err(Error::NotOwned));
    assert!(model.is_idle());
    assert!(engine.released_vars.is_empty());
    assert!(engine.released_conss.is_empty());
}

#[test]
fn handles_of_a_read_problem_are_borrowed() {
    let mut engine = Engine::new();
    let mut model = Model::new(OKAY, 1).unwrap();
    read_prob(&mut model, &mut engine, "data/test/simple.lp");
    assert_eq!(model.source(), Source::Loaded);
    assert_eq!(model.epoch(), 1);
    let vars = model.get_vars();
    assert_eq!(vars.len(), 2);
    assert_eq!(vars[0].get_name(), "x1");
    assert_eq!(vars[1].get_name(), "x2");
    assert_eq!(vars[0].get_type(), VarType::Integer);
    assert_eq!(num(vars[1].get_obj()), 4.);
    assert_eq!(num(vars[0].get_ub()), f64::INFINITY);
    assert_eq!(vars[1].get_index(), 1);
    assert_eq!(vars[1].slot(), 1);
    assert_eq!(model.release_var(&vars[0]), Err(Error::NotOwned));
    let conss = model.get_conss();
    assert_eq!(conss.len(), 2);
    assert_eq!(conss[0].get_name(), "c1");
    assert_eq!(num(conss[0].get_lhs()), -f64::INFINITY);
    assert_eq!(num(conss[0].get_rhs()), 100.);
    assert_eq!(conss[1].n_terms(), 2);
    assert_eq!(conss[1].term_var(1), 1);
    assert_eq!(num(conss[1].term_coef(1)), 2.);
    assert_eq!(conss[1].slot(), 1);
    assert!(model.knows_cons(&conss[1]));
}

#[test]
fn variable_outside_any_pool_has_no_index() {
    let mut model = Model::new(OKAY, 1).unwrap();
    let call = model.create_prob("p").unwrap();
    assert_eq!(call, EngineCall::CreateProb { name: "p".to_string() });
    done(model.resume(Reply::Code(OKAY)));
    model.add_var(val(0.), val(1.), val(0.), "x", VarType::Binary).unwrap();
    assert!(matches!(model.resume(Reply::Code(OKAY)), Step::Call(EngineCall::AddVar { slot: 0 })));
    let var = variable(model.resume(Reply::Added { code: OKAY, index: -1 }));
    assert!(!var.is_in_pool());
    assert!(!model.get_vars()[0].is_in_pool());
    assert_eq!(var.get_name(), "x");
}

#[test]
fn bounds_out_of_order_are_refused() {
    let mut model = Model::new(OKAY, 1).unwrap();
    let r = model.add_var(val(1.), val(0.), val(0.), "x", VarType::Continuous);
    assert_eq!(r, Err(Error::InvalidBounds));
    assert!(model.is_idle());
    let r = model.add_var(val(f64::NAN), val(0.), val(0.), "x", VarType::Continuous);
    assert_eq!(r, Err(Error::InvalidBounds));
    let r = model.add_var(val(0.), val(f64::NAN), val(0.), "x", VarType::Continuous);
    assert_eq!(r, Err(Error::InvalidBounds));
    let r = model.add_var(val(f64::INFINITY), val(-f64::INFINITY), val(0.), "x", VarType::Integer);
    assert_eq!(r, Err(Error::InvalidBounds));
    assert_eq!(model.get_n_vars(), 0);
    assert!(model.add_var(val(2.), val(2.), val(0.), "x", VarType::Integer).is_ok());
}

#[test]
fn mismatched_lengths_are_refused_before_any_call() {
    let mut engine = Engine::new();
    let mut model = Model::new(OKAY, 1).unwrap();
    create_prob(&mut model, &mut engine, "p");
    let x = add_var(&mut model, &mut engine, 0., 1., 1., "x", VarType::Binary);
    let made = engine.calls.len();
    let r = model.add_cons(&[&x], &[val(1.), val(2.)], val(0.), val(1.), "c");
    assert_eq!(r, Err(Error::LengthMismatch));
    let r = model.add_cons(&[&x, &x], &[val(1.)], val(0.), val(1.), "c");
    assert_eq!(r, Err(Error::LengthMismatch));
    assert!(model.is_idle());
    assert_eq!(model.get_n_conss(), 0);
    assert_eq!(engine.calls.len(), made);
}

#[test]
fn handles_from_elsewhere_are_refused() {
    let mut engine = Engine::new();
    let mut model = Model::new(OKAY, 1).unwrap();
    let mut other = Model::new(OKAY, 2).unwrap();
    create_prob(&mut model, &mut engine, "p");
    create_prob(&mut other, &mut engine, "q");
    let x = add_var(&mut model, &mut engine, 0., 1., 1., "x", VarType::Binary);
    let y = add_var(&mut other, &mut engine, 0., 1., 1., "y", VarType::Binary);
    assert!(model.knows_var(&x));
    assert!(!model.knows_var(&y));
    let r = model.add_cons(&[&x, &y], &[val(1.), val(1.)], val(0.), val(1.), "c");
    assert_eq!(r, Err(Error::UnknownHandle));
    assert_eq!(model.release_var(&y), Err(Error::UnknownHandle));
    let c = add_cons(&mut other, &mut engine, &[&y], &[1.], 0., 1., "c");
    assert!(!model.knows_cons(&c));
    assert_eq!(model.release_cons(&c), Err(Error::UnknownHandle));
    assert!(model.is_idle());
}

#[test]
fn handles_of_a_replaced_problem_are_refused() {
    let mut engine = Engine::new();
    let mut model = Model::new(OKAY, 1).unwrap();
    create_prob(&mut model, &mut engine, "p");
    let x = add_var(&mut model, &mut engine, 0., 1., 1., "x", VarType::Binary);
    solve(&mut model, &mut engine);
    assert!(model.has_best_sol());
    let epoch = model.epoch();
    create_prob(&mut model, &mut engine, "again");
    assert_eq!(model.epoch(), epoch + 1);
    assert_eq!(model.get_n_vars(), 0);
    assert_eq!(model.get_status(), Status::Unknown);
    assert!(!model.has_obj_val());
    assert!(!model.has_best_sol());
    assert!(!model.knows_var(&x));
    assert_eq!(model.release_var(&x), Err(Error::UnknownHandle));
    let r = model.add_cons(&[&x], &[val(1.)], val(0.), val(1.), "c");
    assert_eq!(r, Err(Error::UnknownHandle));
}

#[test]
fn plugins_are_included_once() {
    let mut engine = Engine::new();
    let mut model = Model::new(OKAY, 1).unwrap();
    let call = model.include_default_plugins().unwrap();
    assert_eq!(call, EngineCall::IncludeDefaultPlugins);
    assert_eq!(model.phase(), Phase::Plugins);
    done(drive(&mut model, &mut engine, call));
    assert!(model.has_plugins());
    assert_eq!(model.include_default_plugins(), Err(Error::PluginsIncluded));
    assert!(model.is_idle());
    assert_eq!(engine.calls.len(), 1);
}

#[test]
fn failed_inclusion_may_be_tried_again() {
    let mut engine = Engine::new();
    engine.fail_call(0, -11);
    let mut model = Model::new(OKAY, 1).unwrap();
    let call = model.include_default_plugins().unwrap();
    let step = drive(&mut model, &mut engine, call);
    assert!(matches!(step, Step::Failed(Retcode::PluginNotFound)));
    assert!(!model.has_plugins());
    assert!(model.include_default_plugins().is_ok());
}

#[test]
fn created_and_read_problems_exclude_each_other() {
    let mut engine = Engine::new();
    let mut model = Model::new(OKAY, 1).unwrap();
    create_prob(&mut model, &mut engine, "p");
    assert_eq!(model.source(), Source::Created);
    assert_eq!(model.read_prob("data/test/simple.lp"), Err(Error::ProblemConflict));
    assert!(model.is_idle());
    create_prob(&mut model, &mut engine, "second");

    let mut model = Model::new(OKAY, 2).unwrap();
    read_prob(&mut model, &mut engine, "data/test/simple.lp");
    assert_eq!(model.create_prob("p"), Err(Error::ProblemConflict));
    assert!(model.is_idle());
    let call = model.read_prob("other.mps").unwrap();
    assert_eq!(call, EngineCall::ReadProb { filename: "other.mps".to_string() });
    done(drive(&mut model, &mut engine, call));
    assert_eq!(model.epoch(), 2);
    assert_eq!(model.get_n_vars(), 2);
}

#[test]
fn failed_creation_of_a_variable_ends_at_once() {
    let mut engine = Engine::new();
    let mut model = Model::new(OKAY, 1).unwrap();
    create_prob(&mut model, &mut engine, "p");
    engine.fail_call(1, -8);
    let call = model.add_var(val(0.), val(1.), val(0.), "x", VarType::Binary).unwrap();
    let step = drive(&mut model, &mut engine, call);
    assert!(matches!(step, Step::Failed(Retcode::InvalidCall)));
    assert_eq!(model.get_n_vars(), 0);
    assert!(engine.created_vars.is_empty());
    assert!(engine.released_vars.is_empty());
    assert_eq!(engine.calls.len(), 2);
}

#[test]
fn failed_addition_of_a_variable_releases_it() {
    let mut engine = Engine::new();
    let mut model = Model::new(OKAY, 1).unwrap();
    create_prob(&mut model, &mut engine, "p");
    engine.fail_call(2, -9);
    let call = model.add_var(val(0.), val(1.), val(0.), "x", VarType::Binary).unwrap();
    let step = drive(&mut model, &mut engine, call);
    assert!(matches!(step, Step::Failed(Retcode::InvalidData)));
    assert_eq!(model.get_n_vars(), 0);
    assert_eq!(engine.created_vars, vec![0]);
    assert_eq!(engine.released_vars, vec![0]);
    assert_eq!(engine.calls.last(), Some(&EngineCall::ReleaseVar { slot: 0 }));
    let x = add_var(&mut model, &mut engine, 0., 1., 1., "x", VarType::Binary);
    assert_eq!(x.slot(), 0);
    assert_eq!(model.get_n_vars(), 1);
}

#[test]
fn constraint_goes_to_the_engine_term_by_term() {
    let mut engine = Engine::new();
    let mut model = Model::new(OKAY, 1).unwrap();
    create_prob(&mut model, &mut engine, "p");
    let x = add_var(&mut model, &mut engine, 0., 9., 1., "x", VarType::Integer);
    let y = add_var(&mut model, &mut engine, 0., 9., 1., "y", VarType::Integer);
    let before = engine.calls.len();
    let c = add_cons(&mut model, &mut engine, &[&y, &x, &y], &[2., -1., 0.5], -3., 8., "mix");
    assert_eq!(
        engine.calls[before..],
        [
            EngineCall::CreateConsLinear {
                slot: 0,
                name: "mix".to_string(),
                lhs: val(-3.),
                rhs: val(8.),
            },
            EngineCall::AddCoefLinear { cons: 0, var: 1, coef: val(2.) },
            EngineCall::AddCoefLinear { cons: 0, var: 0, coef: val(-1.) },
            EngineCall::AddCoefLinear { cons: 0, var: 1, coef: val(0.5) },
            EngineCall::AddCons { slot: 0 },
        ]
    );
    assert!(c.is_owned());
    assert_eq!(c.get_name(), "mix");
    assert_eq!(num(c.get_lhs()), -3.);
    assert_eq!(num(c.get_rhs()), 8.);
    assert_eq!(c.n_terms(), 3);
    assert_eq!(c.term_var(0), 1);
    assert_eq!(c.term_var(1), 0);
    assert_eq!(num(c.term_coef(2)), 0.5);
    assert_eq!(c.context(), 1);
    assert_eq!(c.epoch(), model.epoch());
    assert!(model.knows_cons(&c));
}

#[test]
fn constraint_without_terms_is_created_and_added() {
    let mut engine = Engine::new();
    let mut model = Model::new(OKAY, 1).unwrap();
    create_prob(&mut model, &mut engine, "p");
    let before = engine.calls.len();
    let c = add_cons(&mut model, &mut engine, &[], &[], 0., 0., "empty");
    assert_eq!(engine.calls.len() - before, 2);
    assert_eq!(engine.calls.last(), Some(&EngineCall::AddCons { slot: 0 }));
    assert_eq!(c.n_terms(), 0);
    assert_eq!(model.get_n_conss(), 1);
}

#[test]
fn failed_term_releases_the_constraint() {
    let mut engine = Engine::new();
    let mut model = Model::new(OKAY, 1).unwrap();
    create_prob(&mut model, &mut engine, "p");
    let x = add_var(&mut model, &mut engine, 0., 9., 1., "x", VarType::Integer);
    let before = engine.calls.len();
    engine.fail_call(before + 2, -1);
    let call = model
        .add_cons(&[&x, &x, &x], &[val(1.), val(2.), val(3.)], val(0.), val(1.), "c")
        .unwrap();
    let step = drive(&mut model, &mut engine, call);
    assert!(matches!(step, Step::Failed(Retcode::NoMemory)));
    assert_eq!(engine.calls.len() - before, 4);
    assert_eq!(engine.calls.last(), Some(&EngineCall::ReleaseCons { slot: 0 }));
    assert_eq!(engine.created_conss, vec![0]);
    assert_eq!(engine.released_conss, vec![0]);
    assert_eq!(model.get_n_conss(), 0);
}

#[test]
fn failed_addition_of_a_constraint_releases_it() {
    let mut engine = Engine::new();
    let mut model = Model::new(OKAY, 1).unwrap();
    create_prob(&mut model, &mut engine, "p");
    let x = add_var(&mut model, &mut engine, 0., 9., 1., "x", VarType::Integer);
    let before = engine.calls.len();
    engine.fail_call(before + 2, -8);
    let call = model.add_cons(&[&x], &[val(1.)], val(0.), val(1.), "c").unwrap();
    let step = drive(&mut model, &mut engine, call);
    assert!(matches!(step, Step::Failed(Retcode::InvalidCall)));
    assert_eq!(engine.released_conss, vec![0]);
    assert_eq!(model.get_n_conss(), 0);
}

#[test]
fn failed_creation_of_a_constraint_releases_nothing() {
    let mut engine = Engine::new();
    let mut model = Model::new(OKAY, 1).unwrap();
    create_prob(&mut model, &mut engine, "p");
    let x = add_var(&mut model, &mut engine, 0., 9., 1., "x", VarType::Integer);
    let before = engine.calls.len();
    engine.fail_call(before, -7);
    let call = model.add_cons(&[&x], &[val(1.)], val(0.), val(1.), "c").unwrap();
    let step = drive(&mut model, &mut engine, call);
    assert!(matches!(step, Step::Failed(Retcode::NoProblem)));
    assert_eq!(engine.calls.len() - before, 1);
    assert!(engine.released_conss.is_empty());
}

#[test]
fn failed_solve_keeps_the_earlier_result() {
    let mut engine = Engine::new();
    let mut model = Model::new(OKAY, 1).unwrap();
    read_prob(&mut model, &mut engine, "data/test/simple.lp");
    solve(&mut model, &mut engine);
    assert_eq!(model.get_status(), Status::Optimal);
    engine.fail_call(engine.calls.len(), -6);
    let call = model.solve();
    assert_eq!(call, EngineCall::Solve);
    assert_eq!(model.phase(), Phase::Solve);
    let step = drive(&mut model, &mut engine, call);
    assert!(matches!(step, Step::Failed(Retcode::LpError)));
    assert_eq!(model.get_status(), Status::Optimal);
    assert_eq!(num(model.get_obj_val()), 200.);
}

#[test]
fn failed_read_keeps_the_problem() {
    let mut engine = Engine::new();
    let mut model = Model::new(OKAY, 1).unwrap();
    read_prob(&mut model, &mut engine, "data/test/simple.lp");
    engine.fail_call(engine.calls.len(), -4);
    let call = model.read_prob("missing.lp").unwrap();
    let step = drive(&mut model, &mut engine, call);
    assert!(matches!(step, Step::Failed(Retcode::NoFile)));
    assert_eq!(model.epoch(), 1);
    assert_eq!(model.get_n_vars(), 2);
}

#[test]
fn unknown_parameter_comes_back_as_the_engine_said() {
    let mut engine = Engine::new();
    engine.fail_call(0, -12);
    let mut model = Model::new(OKAY, 1).unwrap();
    let call = model.set_int_param("no/such/parameter", 3);
    assert_eq!(call, EngineCall::SetIntParam { param: "no/such/parameter".to_string(), value: 3 });
    let step = drive(&mut model, &mut engine, call);
    assert!(matches!(step, Step::Failed(Retcode::ParameterUnknown)));
}

#[test]
fn settings_go_out_by_their_codes() {
    let mut model = Model::new(OKAY, 1).unwrap();
    assert_eq!(
        model.hide_output(),
        EngineCall::SetIntParam { param: "display/verblevel".to_string(), value: 0 }
    );
    assert_eq!(model.phase(), Phase::Plain);
    done(model.resume(Reply::Code(OKAY)));
    assert_eq!(
        model.set_presolving(ParamSetting::Off),
        EngineCall::SetPresolving { setting: 3, quiet: true }
    );
    done(model.resume(Reply::Code(OKAY)));
    assert_eq!(
        model.set_separating(ParamSetting::Aggressive),
        EngineCall::SetSeparating { setting: 1, quiet: true }
    );
    done(model.resume(Reply::Code(OKAY)));
    assert_eq!(
        model.set_heuristics(ParamSetting::Fast),
        EngineCall::SetHeuristics { setting: 2, quiet: true }
    );
    done(model.resume(Reply::Code(OKAY)));
    assert_eq!(model.set_obj_sense(ObjSense::Maximize), EngineCall::SetObjSense { sense: -1 });
    done(model.resume(Reply::Code(OKAY)));
    assert_eq!(model.set_obj_sense(ObjSense::Minimize), EngineCall::SetObjSense { sense: 1 });
    done(model.resume(Reply::Code(OKAY)));
    assert_eq!(
        model.set_str_param("visual/vbcfilename", "tree.vbc"),
        EngineCall::SetStrParam {
            param: "visual/vbcfilename".to_string(),
            value: "tree.vbc".to_string(),
        }
    );
    done(model.resume(Reply::Code(OKAY)));
    assert_eq!(
        model.write("out/problem", "lp"),
        EngineCall::WriteOrigProblem {
            path: "out/problem".to_string(),
            ext: "lp".to_string(),
            generic_names: true,
        }
    );
    done(model.resume(Reply::Code(OKAY)));
    assert!(model.is_idle());
}

#[test]
fn answers_of_the_wrong_shape_are_not_expected() {
    let mut model = Model::new(OKAY, 1).unwrap();
    model.solve();
    assert!(!model.expects(&Reply::Code(OKAY)));
    assert!(!model.expects(&Reply::Added { code: OKAY, index: 0 }));
    assert!(!model.expects(&Reply::Solved { code: OKAY, status: 16, objective: val(0.), best: None }));
    assert!(model.expects(&Reply::Solved { code: -6, status: 16, objective: val(0.), best: None }));
    assert!(!model.expects(&Reply::Solved { code: 2, status: 11, objective: val(0.), best: None }));
    assert!(!model.expects(&Reply::Solved { code: -19, status: 11, objective: val(0.), best: None }));
    assert!(model.expects(&Reply::Solved { code: OKAY, status: 15, objective: val(0.), best: None }));
}

#[test]
fn reported_problems_are_checked_before_they_are_taken_over() {
    let mut model = Model::new(OKAY, 1).unwrap();
    model.read_prob("p.lp").unwrap();
    let (vars, conss) = Engine::simple_problem();
    assert!(model.expects(&Reply::Loaded { code: OKAY, vars, conss }));
    let (mut vars, conss) = Engine::simple_problem();
    vars[1].var_type = 4;
    assert!(!model.expects(&Reply::Loaded { code: OKAY, vars, conss }));
    let (vars, mut conss) = Engine::simple_problem();
    conss[1].terms[0].0 = 2;
    assert!(!model.expects(&Reply::Loaded { code: OKAY, vars, conss }));
    let (vars, mut conss) = Engine::simple_problem();
    conss[1].terms[0].0 = 2;
    assert!(model.expects(&Reply::Loaded { code: -2, vars, conss }));
    assert!(!model.expects(&Reply::Code(OKAY)));
}

#[test]
fn solution_covers_the_variables_of_its_problem() {
    let mut engine = Engine::new();
    let mut model = Model::new(OKAY, 1).unwrap();
    let mut other = Model::new(OKAY, 2).unwrap();
    read_prob(&mut model, &mut engine, "data/test/simple.lp");
    read_prob(&mut other, &mut engine, "data/test/simple.lp");
    solve(&mut model, &mut engine);
    let sol = model.get_best_sol();
    let vars = model.get_vars();
    assert!(sol.covers(&vars[0]));
    assert!(sol.covers(&vars[1]));
    assert!(!sol.covers(&other.get_vars()[0]));
}
