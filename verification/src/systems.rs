//! Systems: functions whose parameters are resolved from the request, run by the router.

use vstd::prelude::*;

use crate::action::{Action, IntoAction};
use crate::resolve::{RequestState, Resolve, ResolveGuard, UrlPart};
use crate::routing::Captures;

verus! {

/// A function run on a request, its parameters resolved from the request state in order.
pub trait System<C, T>: Sized {
    /// Whether `run` may be called: the function accepts whatever its parameters resolve to,
    /// and whatever it returns can be turned into an action.
    spec fn run_ok(&self) -> bool;

    /// Whether running on `ctx` with the url parts `captures` may give `r` and leave the url
    /// parts `rest`.
    spec fn runs(&self, ctx: &RequestState<C>, captures: Seq<String>, r: Action, rest: Seq<String>) -> bool;

    /// Runs the system; its parameters take url parts from the front of `captures`.
    fn run(self, ctx: &RequestState<C>, captures: &mut Captures) -> (r: Action)
        requires
            self.run_ok(),
        ensures
            self.runs(ctx, old(captures)@, r, final(captures)@),
            final(captures)@.len() <= old(captures)@.len(),
    ;
}

/// What resolving one parameter leads to: its value, or the action that stops the system.
pub open spec fn step_result<T>(g: ResolveGuard<T>) -> Result<T, Action> {
    match g {
        ResolveGuard::Value(v) => Ok(v),
        ResolveGuard::Respond(x) => Err(Action::Respond(x)),
        ResolveGuard::Fail(e) => Err(Action::Fail(e)),
    }
}

/// Resolves one parameter of a system; also gives the guard it resolved to.
fn resolve_param<C, T: Resolve<C>>(ctx: &RequestState<C>, captures: &mut Captures) -> (r: (
    Result<T, Action>,
    Ghost<ResolveGuard<T>>,
))
    ensures
        T::resolves(ctx, old(captures)@, r.1@, final(captures)@),
        final(captures)@.len() <= old(captures)@.len(),
        r.0 == step_result(r.1@),
{
    let g = T::resolve(ctx, captures);
    let ghost h = g;
    let r = match g {
        ResolveGuard::Value(v) => Ok(v),
        ResolveGuard::Respond(x) => Err(Action::Respond(x)),
        ResolveGuard::Fail(e) => Err(Action::Fail(e)),
    };
    (r, Ghost(h))
}

impl<C, Ret: IntoAction, Func: Fn() -> Ret> System<C, (Ret,)> for Func {
    open spec fn run_ok(&self) -> bool {
        &&& call_requires(*self, ())
        &&& forall|ret: Ret| call_ensures(*self, (), ret) ==> ret.action_ok()
    }

    open spec fn runs(&self, ctx: &RequestState<C>, captures: Seq<String>, r: Action, rest: Seq<String>) -> bool {
        exists|ret: Ret| #[trigger] call_ensures(*self, (), ret) && ret.acts_as(r) && rest == captures
    }

    /// Calls the function and turns what it returns into an action.
    fn run(self, ctx: &RequestState<C>, captures: &mut Captures) -> (r: Action) {
        let ret = self();
        ret.action()
    }
}

impl<C, Ret: IntoAction, P1: Resolve<C>, Func: Fn(P1) -> Ret> System<C, (Ret, P1)> for Func {
    open spec fn run_ok(&self) -> bool {
        &&& forall|p1: P1| #[trigger] call_requires(*self, (p1,))
        &&& forall|p1: P1, ret: Ret| #[trigger] call_ensures(*self, (p1,), ret) ==> ret.action_ok()
    }

    open spec fn runs(&self, ctx: &RequestState<C>, captures: Seq<String>, r: Action, rest: Seq<String>) -> bool {
        exists|g1: ResolveGuard<P1>, c1: Seq<String>|
            #[trigger] P1::resolves(ctx, captures, g1, c1) && match g1 {
                ResolveGuard::Value(p1) =>
                    exists|ret: Ret| #[trigger] call_ensures(*self, (p1,), ret) && ret.acts_as(r) && rest == c1,
                ResolveGuard::Respond(x) => r == Action::Respond(x) && rest == c1,
                ResolveGuard::Fail(e) => r == Action::Fail(e) && rest == c1,
            }
    }

    /// Resolves the parameter, then calls the function; a parameter that does not resolve
    /// to a value decides the action instead.
    fn run(self, ctx: &RequestState<C>, captures: &mut Captures) -> (r: Action) {
        let (step, _) = resolve_param::<C, P1>(ctx, captures);
        let p1 = match step {
            Ok(v) => v,
            Err(a) => return a,
        };
        let ret = self(p1);
        ret.action()
    }
}

impl<C, Ret: IntoAction, P1: Resolve<C>, P2: Resolve<C>, Func: Fn(P1, P2) -> Ret> System<C, (Ret, P1, P2)> for Func {
    open spec fn run_ok(&self) -> bool {
        &&& forall|p1: P1, p2: P2| #[trigger] call_requires(*self, (p1, p2))
        &&& forall|p1: P1, p2: P2, ret: Ret| #[trigger] call_ensures(*self, (p1, p2), ret) ==> ret.action_ok()
    }

    open spec fn runs(&self, ctx: &RequestState<C>, captures: Seq<String>, r: Action, rest: Seq<String>) -> bool {
        exists|g1: ResolveGuard<P1>, c1: Seq<String>|
            #[trigger] P1::resolves(ctx, captures, g1, c1) && match g1 {
                ResolveGuard::Value(p1) =>
                    exists|g2: ResolveGuard<P2>, c2: Seq<String>|
                        #[trigger] P2::resolves(ctx, c1, g2, c2) && match g2 {
                            ResolveGuard::Value(p2) =>
                                exists|ret: Ret| #[trigger] call_ensures(*self, (p1, p2), ret) && ret.acts_as(r) && rest == c2,
                            ResolveGuard::Respond(x) => r == Action::Respond(x) && rest == c2,
                            ResolveGuard::Fail(e) => r == Action::Fail(e) && rest == c2,
                        },
                ResolveGuard::Respond(x) => r == Action::Respond(x) && rest == c1,
                ResolveGuard::Fail(e) => r == Action::Fail(e) && rest == c1,
            }
    }

    /// Resolves the parameters in order, then calls the function; the first parameter that
    /// does not resolve to a value decides the action instead.
    fn run(self, ctx: &RequestState<C>, captures: &mut Captures) -> (r: Action) {
        let (step, _) = resolve_param::<C, P1>(ctx, captures);
        let p1 = match step {
            Ok(v) => v,
            Err(a) => return a,
        };
        let (step, _) = resolve_param::<C, P2>(ctx, captures);
        let p2 = match step {
            Ok(v) => v,
            Err(a) => return a,
        };
        let ret = self(p1, p2);
        ret.action()
    }
}

impl<C, Ret: IntoAction, P1: Resolve<C>, P2: Resolve<C>, P3: Resolve<C>, Func: Fn(P1, P2, P3) -> Ret> System<C, (Ret, P1, P2, P3)> for Func {
    open spec fn run_ok(&self) -> bool {
        &&& forall|p1: P1, p2: P2, p3: P3| #[trigger] call_requires(*self, (p1, p2, p3))
        &&& forall|p1: P1, p2: P2, p3: P3, ret: Ret| #[trigger] call_ensures(*self, (p1, p2, p3), ret) ==> ret.action_ok()
    }

    open spec fn runs(&self, ctx: &RequestState<C>, captures: Seq<String>, r: Action, rest: Seq<String>) -> bool {
        exists|g1: ResolveGuard<P1>, c1: Seq<String>|
            #[trigger] P1::resolves(ctx, captures, g1, c1) && match g1 {
                ResolveGuard::Value(p1) =>
                    exists|g2: ResolveGuard<P2>, c2: Seq<String>|
                        #[trigger] P2::resolves(ctx, c1, g2, c2) && match g2 {
                            ResolveGuard::Value(p2) =>
                                exists|g3: ResolveGuard<P3>, c3: Seq<String>|
                                    #[trigger] P3::resolves(ctx, c2, g3, c3) && match g3 {
                                        ResolveGuard::Value(p3) =>
                                            exists|ret: Ret| #[trigger] call_ensures(*self, (p1, p2, p3), ret) && ret.acts_as(r) && rest == c3,
                                        ResolveGuard::Respond(x) => r == Action::Respond(x) && rest == c3,
                                        ResolveGuard::Fail(e) => r == Action::Fail(e) && rest == c3,
                                    },
                            ResolveGuard::Respond(x) => r == Action::Respond(x) && rest == c2,
                            ResolveGuard::Fail(e) => r == Action::Fail(e) && rest == c2,
                        },
                ResolveGuard::Respond(x) => r == Action::Respond(x) && rest == c1,
                ResolveGuard::Fail(e) => r == Action::Fail(e) && rest == c1,
            }
    }

    /// Resolves the parameters in order, then calls the function; the first parameter that
    /// does not resolve to a value decides the action instead.
    fn run(self, ctx: &RequestState<C>, captures: &mut Captures) -> (r: Action) {
        let (step, _) = resolve_param::<C, P1>(ctx, captures);
        let p1 = match step {
            Ok(v) => v,
            Err(a) => return a,
        };
        let (step, _) = resolve_param::<C, P2>(ctx, captures);
        let p2 = match step {
            Ok(v) => v,
            Err(a) => return a,
        };
        let (step, _) = resolve_param::<C, P3>(ctx, captures);
        let p3 = match step {
            Ok(v) => v,
            Err(a) => return a,
        };
        let ret = self(p1, p2, p3);
        ret.action()
    }
}

impl<C, Ret: IntoAction, P1: Resolve<C>, P2: Resolve<C>, P3: Resolve<C>, P4: Resolve<C>, Func: Fn(P1, P2, P3, P4) -> Ret> System<C, (Ret, P1, P2, P3, P4)> for Func {
    open spec fn run_ok(&self) -> bool {
        &&& forall|p1: P1, p2: P2, p3: P3, p4: P4| #[trigger] call_requires(*self, (p1, p2, p3, p4))
        &&& forall|p1: P1, p2: P2, p3: P3, p4: P4, ret: Ret| #[trigger] call_ensures(*self, (p1, p2, p3, p4), ret) ==> ret.action_ok()
    }

    open spec fn runs(&self, ctx: &RequestState<C>, captures: Seq<String>, r: Action, rest: Seq<String>) -> bool {
        exists|g1: ResolveGuard<P1>, c1: Seq<String>|
            #[trigger] P1::resolves(ctx, captures, g1, c1) && match g1 {
                ResolveGuard::Value(p1) =>
                    exists|g2: ResolveGuard<P2>, c2: Seq<String>|
                        #[trigger] P2::resolves(ctx, c1, g2, c2) && match g2 {
                            ResolveGuard::Value(p2) =>
                                exists|g3: ResolveGuard<P3>, c3: Seq<String>|
                                    #[trigger] P3::resolves(ctx, c2, g3, c3) && match g3 {
                                        ResolveGuard::Value(p3) =>
                                            exists|g4: ResolveGuard<P4>, c4: Seq<String>|
                                                #[trigger] P4::resolves(ctx, c3, g4, c4) && match g4 {
                                                    ResolveGuard::Value(p4) =>
                                                        exists|ret: Ret| #[trigger] call_ensures(*self, (p1, p2, p3, p4), ret) && ret.acts_as(r) && rest == c4,
                                                    ResolveGuard::Respond(x) => r == Action::Respond(x) && rest == c4,
                                                    ResolveGuard::Fail(e) => r == Action::Fail(e) && rest == c4,
                                                },
                                        ResolveGuard::Respond(x) => r == Action::Respond(x) && rest == c3,
                                        ResolveGuard::Fail(e) => r == Action::Fail(e) && rest == c3,
                                    },
                            ResolveGuard::Respond(x) => r == Action::Respond(x) && rest == c2,
                            ResolveGuard::Fail(e) => r == Action::Fail(e) && rest == c2,
                        },
                ResolveGuard::Respond(x) => r == Action::Respond(x) && rest == c1,
                ResolveGuard::Fail(e) => r == Action::Fail(e) && rest == c1,
            }
    }

    /// Resolves the parameters in order, then calls the function; the first parameter that
    /// does not resolve to a value decides the action instead.
    fn run(self, ctx: &RequestState<C>, captures: &mut Captures) -> (r: Action) {
        let (step, _) = resolve_param::<C, P1>(ctx, captures);
        let p1 = match step {
            Ok(v) => v,
            Err(a) => return a,
        };
        let (step, _) = resolve_param::<C, P2>(ctx, captures);
        let p2 = match step {
            Ok(v) => v,
            Err(a) => return a,
        };
        let (step, _) = resolve_param::<C, P3>(ctx, captures);
        let p3 = match step {
            Ok(v) => v,
            Err(a) => return a,
        };
        let (step, _) = resolve_param::<C, P4>(ctx, captures);
        let p4 = match step {
            Ok(v) => v,
            Err(a) => return a,
        };
        let ret = self(p1, p2, p3, p4);
        ret.action()
    }
}

impl<C, Ret: IntoAction, P1: Resolve<C>, P2: Resolve<C>, P3: Resolve<C>, P4: Resolve<C>, P5: Resolve<C>, Func: Fn(P1, P2, P3, P4, P5) -> Ret> System<C, (Ret, P1, P2, P3, P4, P5)> for Func {
    open spec fn run_ok(&self) -> bool {
        &&& forall|p1: P1, p2: P2, p3: P3, p4: P4, p5: P5| #[trigger] call_requires(*self, (p1, p2, p3, p4, p5))
        &&& forall|p1: P1, p2: P2, p3: P3, p4: P4, p5: P5, ret: Ret| #[trigger] call_ensures(*self, (p1, p2, p3, p4, p5), ret) ==> ret.action_ok()
    }

    open spec fn runs(&self, ctx: &RequestState<C>, captures: Seq<String>, r: Action, rest: Seq<String>) -> bool {
        exists|g1: ResolveGuard<P1>, c1: Seq<String>|
            #[trigger] P1::resolves(ctx, captures, g1, c1) && match g1 {
                ResolveGuard::Value(p1) =>
                    exists|g2: ResolveGuard<P2>, c2: Seq<String>|
                        #[trigger] P2::resolves(ctx, c1, g2, c2) && match g2 {
                            ResolveGuard::Value(p2) =>
                                exists|g3: ResolveGuard<P3>, c3: Seq<String>|
                                    #[trigger] P3::resolves(ctx, c2, g3, c3) && match g3 {
                                        ResolveGuard::Value(p3) =>
                                            exists|g4: ResolveGuard<P4>, c4: Seq<String>|
                                                #[trigger] P4::resolves(ctx, c3, g4, c4) && match g4 {
                                                    ResolveGuard::Value(p4) =>
                                                        exists|g5: ResolveGuard<P5>, c5: Seq<String>|
                                                            #[trigger] P5::resolves(ctx, c4, g5, c5) && match g5 {
                                                                ResolveGuard::Value(p5) =>
                                                                    exists|ret: Ret| #[trigger] call_ensures(*self, (p1, p2, p3, p4, p5), ret) && ret.acts_as(r) && rest == c5,
                                                                ResolveGuard::Respond(x) => r == Action::Respond(x) && rest == c5,
                                                                ResolveGuard::Fail(e) => r == Action::Fail(e) && rest == c5,
                                                            },
                                                    ResolveGuard::Respond(x) => r == Action::Respond(x) && rest == c4,
                                                    ResolveGuard::Fail(e) => r == Action::Fail(e) && rest == c4,
                                                },
                                        ResolveGuard::Respond(x) => r == Action::Respond(x) && rest == c3,
                                        ResolveGuard::Fail(e) => r == Action::Fail(e) && rest == c3,
                                    },
                            ResolveGuard::Respond(x) => r == Action::Respond(x) && rest == c2,
                            ResolveGuard::Fail(e) => r == Action::Fail(e) && rest == c2,
                        },
                ResolveGuard::Respond(x) => r == Action::Respond(x) && rest == c1,
                ResolveGuard::Fail(e) => r == Action::Fail(e) && rest == c1,
            }
    }

    /// Resolves the parameters in order, then calls the function; the first parameter that
    /// does not resolve to a value decides the action instead.
    fn run(self, ctx: &RequestState<C>, captures: &mut Captures) -> (r: Action) {
        let (step, _) = resolve_param::<C, P1>(ctx, captures);
        let p1 = match step {
            Ok(v) => v,
            Err(a) => return a,
        };
        let (step, _) = resolve_param::<C, P2>(ctx, captures);
        let p2 = match step {
            Ok(v) => v,
            Err(a) => return a,
        };
        let (step, _) = resolve_param::<C, P3>(ctx, captures);
        let p3 = match step {
            Ok(v) => v,
            Err(a) => return a,
        };
        let (step, _) = resolve_param::<C, P4>(ctx, captures);
        let p4 = match step {
            Ok(v) => v,
            Err(a) => return a,
        };
        let (step, _) = resolve_param::<C, P5>(ctx, captures);
        let p5 = match step {
            Ok(v) => v,
            Err(a) => return a,
        };
        let ret = self(p1, p2, p3, p4, p5);
        ret.action()
    }
}

impl<C, Ret: IntoAction, P1: Resolve<C>, P2: Resolve<C>, P3: Resolve<C>, P4: Resolve<C>, P5: Resolve<C>, P6: Resolve<C>, Func: Fn(P1, P2, P3, P4, P5, P6) -> Ret> System<C, (Ret, P1, P2, P3, P4, P5, P6)> for Func {
    open spec fn run_ok(&self) -> bool {
        &&& forall|p1: P1, p2: P2, p3: P3, p4: P4, p5: P5, p6: P6| #[trigger] call_requires(*self, (p1, p2, p3, p4, p5, p6))
        &&& forall|p1: P1, p2: P2, p3: P3, p4: P4, p5: P5, p6: P6, ret: Ret| #[trigger] call_ensures(*self, (p1, p2, p3, p4, p5, p6), ret) ==> ret.action_ok()
    }

    open spec fn runs(&self, ctx: &RequestState<C>, captures: Seq<String>, r: Action, rest: Seq<String>) -> bool {
        exists|g1: ResolveGuard<P1>, c1: Seq<String>|
            #[trigger] P1::resolves(ctx, captures, g1, c1) && match g1 {
                ResolveGuard::Value(p1) =>
                    exists|g2: ResolveGuard<P2>, c2: Seq<String>|
                        #[trigger] P2::resolves(ctx, c1, g2, c2) && match g2 {
                            ResolveGuard::Value(p2) =>
                                exists|g3: ResolveGuard<P3>, c3: Seq<String>|
                                    #[trigger] P3::resolves(ctx, c2, g3, c3) && match g3 {
                                        ResolveGuard::Value(p3) =>
                                            exists|g4: ResolveGuard<P4>, c4: Seq<String>|
                                                #[trigger] P4::resolves(ctx, c3, g4, c4) && match g4 {
                                                    ResolveGuard::Value(p4) =>
                                                        exists|g5: ResolveGuard<P5>, c5: Seq<String>|
                                                            #[trigger] P5::resolves(ctx, c4, g5, c5) && match g5 {
                                                                ResolveGuard::Value(p5) =>
                                                                    exists|g6: ResolveGuard<P6>, c6: Seq<String>|
                                                                        #[trigger] P6::resolves(ctx, c5, g6, c6) && match g6 {
                                                                            ResolveGuard::Value(p6) =>
                                                                                exists|ret: Ret| #[trigger] call_ensures(*self, (p1, p2, p3, p4, p5, p6), ret) && ret.acts_as(r) && rest == c6,
                                                                            ResolveGuard::Respond(x) => r == Action::Respond(x) && rest == c6,
                                                                            ResolveGuard::Fail(e) => r == Action::Fail(e) && rest == c6,
                                                                        },
                                                                ResolveGuard::Respond(x) => r == Action::Respond(x) && rest == c5,
                                                                ResolveGuard::Fail(e) => r == Action::Fail(e) && rest == c5,
                                                            },
                                                    ResolveGuard::Respond(x) => r == Action::Respond(x) && rest == c4,
                                                    ResolveGuard::Fail(e) => r == Action::Fail(e) && rest == c4,
                                                },
                                        ResolveGuard::Respond(x) => r == Action::Respond(x) && rest == c3,
                                        ResolveGuard::Fail(e) => r == Action::Fail(e) && rest == c3,
                                    },
                            ResolveGuard::Respond(x) => r == Action::Respond(x) && rest == c2,
                            ResolveGuard::Fail(e) => r == Action::Fail(e) && rest == c2,
                        },
                ResolveGuard::Respond(x) => r == Action::Respond(x) && rest == c1,
                ResolveGuard::Fail(e) => r == Action::Fail(e) && rest == c1,
            }
    }

    /// Resolves the parameters in order, then calls the function; the first parameter that
    /// does not resolve to a value decides the action instead.
    fn run(self, ctx: &RequestState<C>, captures: &mut Captures) -> (r: Action) {
        let (step, _) = resolve_param::<C, P1>(ctx, captures);
        let p1 = match step {
            Ok(v) => v,
            Err(a) => return a,
        };
        let (step, _) = resolve_param::<C, P2>(ctx, captures);
        let p2 = match step {
            Ok(v) => v,
            Err(a) => return a,
        };
        let (step, _) = resolve_param::<C, P3>(ctx, captures);
        let p3 = match step {
            Ok(v) => v,
            Err(a) => return a,
        };
        let (step, _) = resolve_param::<C, P4>(ctx, captures);
        let p4 = match step {
            Ok(v) => v,
            Err(a) => return a,
        };
        let (step, _) = resolve_param::<C, P5>(ctx, captures);
        let p5 = match step {
            Ok(v) => v,
            Err(a) => return a,
        };
        let (step, _) = resolve_param::<C, P6>(ctx, captures);
        let p6 = match step {
            Ok(v) => v,
            Err(a) => return a,
        };
        let ret = self(p1, p2, p3, p4, p5, p6);
        ret.action()
    }
}

impl<C, Ret: IntoAction, P1: Resolve<C>, P2: Resolve<C>, P3: Resolve<C>, P4: Resolve<C>, P5: Resolve<C>, P6: Resolve<C>, P7: Resolve<C>, Func: Fn(P1, P2, P3, P4, P5, P6, P7) -> Ret> System<C, (Ret, P1, P2, P3, P4, P5, P6, P7)> for Func {
    open spec fn run_ok(&self) -> bool {
        &&& forall|p1: P1, p2: P2, p3: P3, p4: P4, p5: P5, p6: P6, p7: P7| #[trigger] call_requires(*self, (p1, p2, p3, p4, p5, p6, p7))
        &&& forall|p1: P1, p2: P2, p3: P3, p4: P4, p5: P5, p6: P6, p7: P7, ret: Ret| #[trigger] call_ensures(*self, (p1, p2, p3, p4, p5, p6, p7), ret) ==> ret.action_ok()
    }

    open spec fn runs(&self, ctx: &RequestState<C>, captures: Seq<String>, r: Action, rest: Seq<String>) -> bool {
        exists|g1: ResolveGuard<P1>, c1: Seq<String>|
            #[trigger] P1::resolves(ctx, captures, g1, c1) && match g1 {
                ResolveGuard::Value(p1) =>
                    exists|g2: ResolveGuard<P2>, c2: Seq<String>|
                        #[trigger] P2::resolves(ctx, c1, g2, c2) && match g2 {
                            ResolveGuard::Value(p2) =>
                                exists|g3: ResolveGuard<P3>, c3: Seq<String>|
                                    #[trigger] P3::resolves(ctx, c2, g3, c3) && match g3 {
                                        ResolveGuard::Value(p3) =>
                                            exists|g4: ResolveGuard<P4>, c4: Seq<String>|
                                                #[trigger] P4::resolves(ctx, c3, g4, c4) && match g4 {
                                                    ResolveGuard::Value(p4) =>
                                                        exists|g5: ResolveGuard<P5>, c5: Seq<String>|
                                                            #[trigger] P5::resolves(ctx, c4, g5, c5) && match g5 {
                                                                ResolveGuard::Value(p5) =>
                                                                    exists|g6: ResolveGuard<P6>, c6: Seq<String>|
                                                                        #[trigger] P6::resolves(ctx, c5, g6, c6) && match g6 {
                                                                            ResolveGuard::Value(p6) =>
                                                                                exists|g7: ResolveGuard<P7>, c7: Seq<String>|
                                                                                    #[trigger] P7::resolves(ctx, c6, g7, c7) && match g7 {
                                                                                        ResolveGuard::Value(p7) =>
                                                                                            exists|ret: Ret| #[trigger] call_ensures(*self, (p1, p2, p3, p4, p5, p6, p7), ret) && ret.acts_as(r) && rest == c7,
                                                                                        ResolveGuard::Respond(x) => r == Action::Respond(x) && rest == c7,
                                                                                        ResolveGuard::Fail(e) => r == Action::Fail(e) && rest == c7,
                                                                                    },
                                                                            ResolveGuard::Respond(x) => r == Action::Respond(x) && rest == c6,
                                                                            ResolveGuard::Fail(e) => r == Action::Fail(e) && rest == c6,
                                                                        },
                                                                ResolveGuard::Respond(x) => r == Action::Respond(x) && rest == c5,
                                                                ResolveGuard::Fail(e) => r == Action::Fail(e) && rest == c5,
                                                            },
                                                    ResolveGuard::Respond(x) => r == Action::Respond(x) && rest == c4,
                                                    ResolveGuard::Fail(e) => r == Action::Fail(e) && rest == c4,
                                                },
                                        ResolveGuard::Respond(x) => r == Action::Respond(x) && rest == c3,
                                        ResolveGuard::Fail(e) => r == Action::Fail(e) && rest == c3,
                                    },
                            ResolveGuard::Respond(x) => r == Action::Respond(x) && rest == c2,
                            ResolveGuard::Fail(e) => r == Action::Fail(e) && rest == c2,
                        },
                ResolveGuard::Respond(x) => r == Action::Respond(x) && rest == c1,
                ResolveGuard::Fail(e) => r == Action::Fail(e) && rest == c1,
            }
    }

    /// Resolves the parameters in order, then calls the function; the first parameter that
    /// does not resolve to a value decides the action instead.
    fn run(self, ctx: &RequestState<C>, captures: &mut Captures) -> (r: Action) {
        let (step, _) = resolve_param::<C, P1>(ctx, captures);
        let p1 = match step {
            Ok(v) => v,
            Err(a) => return a,
        };
        let (step, _) = resolve_param::<C, P2>(ctx, captures);
        let p2 = match step {
            Ok(v) => v,
            Err(a) => return a,
        };
        let (step, _) = resolve_param::<C, P3>(ctx, captures);
        let p3 = match step {
            Ok(v) => v,
            Err(a) => return a,
        };
        let (step, _) = resolve_param::<C, P4>(ctx, captures);
        let p4 = match step {
            Ok(v) => v,
            Err(a) => return a,
        };
        let (step, _) = resolve_param::<C, P5>(ctx, captures);
        let p5 = match step {
            Ok(v) => v,
            Err(a) => return a,
        };
        let (step, _) = resolve_param::<C, P6>(ctx, captures);
        let p6 = match step {
            Ok(v) => v,
            Err(a) => return a,
        };
        let (step, _) = resolve_param::<C, P7>(ctx, captures);
        let p7 = match step {
            Ok(v) => v,
            Err(a) => return a,
        };
        let ret = self(p1, p2, p3, p4, p5, p6, p7);
        ret.action()
    }
}

impl<C, Ret: IntoAction, P1: Resolve<C>, P2: Resolve<C>, P3: Resolve<C>, P4: Resolve<C>, P5: Resolve<C>, P6: Resolve<C>, P7: Resolve<C>, P8: Resolve<C>, Func: Fn(P1, P2, P3, P4, P5, P6, P7, P8) -> Ret> System<C, (Ret, P1, P2, P3, P4, P5, P6, P7, P8)> for Func {
    open spec fn run_ok(&self) -> bool {
        &&& forall|p1: P1, p2: P2, p3: P3, p4: P4, p5: P5, p6: P6, p7: P7, p8: P8| #[trigger] call_requires(*self, (p1, p2, p3, p4, p5, p6, p7, p8))
        &&& forall|p1: P1, p2: P2, p3: P3, p4: P4, p5: P5, p6: P6, p7: P7, p8: P8, ret: Ret| #[trigger] call_ensures(*self, (p1, p2, p3, p4, p5, p6, p7, p8), ret) ==> ret.action_ok()
    }

    open spec fn runs(&self, ctx: &RequestState<C>, captures: Seq<String>, r: Action, rest: Seq<String>) -> bool {
        exists|g1: ResolveGuard<P1>, c1: Seq<String>|
            #[trigger] P1::resolves(ctx, captures, g1, c1) && match g1 {
                ResolveGuard::Value(p1) =>
                    exists|g2: ResolveGuard<P2>, c2: Seq<String>|
                        #[trigger] P2::resolves(ctx, c1, g2, c2) && match g2 {
                            ResolveGuard::Value(p2) =>
                                exists|g3: ResolveGuard<P3>, c3: Seq<String>|
                                    #[trigger] P3::resolves(ctx, c2, g3, c3) && match g3 {
                                        ResolveGuard::Value(p3) =>
                                            exists|g4: ResolveGuard<P4>, c4: Seq<String>|
                                                #[trigger] P4::resolves(ctx, c3, g4, c4) && match g4 {
                                                    ResolveGuard::Value(p4) =>
                                                        exists|g5: ResolveGuard<P5>, c5: Seq<String>|
                                                            #[trigger] P5::resolves(ctx, c4, g5, c5) && match g5 {
                                                                ResolveGuard::Value(p5) =>
                                                                    exists|g6: ResolveGuard<P6>, c6: Seq<String>|
                                                                        #[trigger] P6::resolves(ctx, c5, g6, c6) && match g6 {
                                                                            ResolveGuard::Value(p6) =>
                                                                                exists|g7: ResolveGuard<P7>, c7: Seq<String>|
                                                                                    #[trigger] P7::resolves(ctx, c6, g7, c7) && match g7 {
                                                                                        ResolveGuard::Value(p7) =>
                                                                                            exists|g8: ResolveGuard<P8>, c8: Seq<String>|
                                                                                                #[trigger] P8::resolves(ctx, c7, g8, c8) && match g8 {
                                                                                                    ResolveGuard::Value(p8) =>
                                                                                                        exists|ret: Ret| #[trigger] call_ensures(*self, (p1, p2, p3, p4, p5, p6, p7, p8), ret) && ret.acts_as(r) && rest == c8,
                                                                                                    ResolveGuard::Respond(x) => r == Action::Respond(x) && rest == c8,
                                                                                                    ResolveGuard::Fail(e) => r == Action::Fail(e) && rest == c8,
                                                                                                },
                                                                                        ResolveGuard::Respond(x) => r == Action::Respond(x) && rest == c7,
                                                                                        ResolveGuard::Fail(e) => r == Action::Fail(e) && rest == c7,
                                                                                    },
                                                                            ResolveGuard::Respond(x) => r == Action::Respond(x) && rest == c6,
                                                                            ResolveGuard::Fail(e) => r == Action::Fail(e) && rest == c6,
                                                                        },
                                                                ResolveGuard::Respond(x) => r == Action::Respond(x) && rest == c5,
                                                                ResolveGuard::Fail(e) => r == Action::Fail(e) && rest == c5,
                                                            },
                                                    ResolveGuard::Respond(x) => r == Action::Respond(x) && rest == c4,
                                                    ResolveGuard::Fail(e) => r == Action::Fail(e) && rest == c4,
                                                },
                                        ResolveGuard::Respond(x) => r == Action::Respond(x) && rest == c3,
                                        ResolveGuard::Fail(e) => r == Action::Fail(e) && rest == c3,
                                    },
                            ResolveGuard::Respond(x) => r == Action::Respond(x) && rest == c2,
                            ResolveGuard::Fail(e) => r == Action::Fail(e) && rest == c2,
                        },
                ResolveGuard::Respond(x) => r == Action::Respond(x) && rest == c1,
                ResolveGuard::Fail(e) => r == Action::Fail(e) && rest == c1,
            }
    }

    /// Resolves the parameters in order, then calls the function; the first parameter that
    /// does not resolve to a value decides the action instead.
    fn run(self, ctx: &RequestState<C>, captures: &mut Captures) -> (r: Action) {
        let (step, _) = resolve_param::<C, P1>(ctx, captures);
        let p1 = match step {
            Ok(v) => v,
            Err(a) => return a,
        };
        let (step, _) = resolve_param::<C, P2>(ctx, captures);
        let p2 = match step {
            Ok(v) => v,
            Err(a) => return a,
        };
        let (step, _) = resolve_param::<C, P3>(ctx, captures);
        let p3 = match step {
            Ok(v) => v,
            Err(a) => return a,
        };
        let (step, _) = resolve_param::<C, P4>(ctx, captures);
        let p4 = match step {
            Ok(v) => v,
            Err(a) => return a,
        };
        let (step, _) = resolve_param::<C, P5>(ctx, captures);
        let p5 = match step {
            Ok(v) => v,
            Err(a) => return a,
        };
        let (step, _) = resolve_param::<C, P6>(ctx, captures);
        let p6 = match step {
            Ok(v) => v,
            Err(a) => return a,
        };
        let (step, _) = resolve_param::<C, P7>(ctx, captures);
        let p7 = match step {
            Ok(v) => v,
            Err(a) => return a,
        };
        let (step, _) = resolve_param::<C, P8>(ctx, captures);
        let p8 = match step {
            Ok(v) => v,
            Err(a) => return a,
        };
        let ret = self(p1, p2, p3, p4, p5, p6, p7, p8);
        ret.action()
    }
}

impl<C, Ret: IntoAction, P1: Resolve<C>, P2: Resolve<C>, P3: Resolve<C>, P4: Resolve<C>, P5: Resolve<C>, P6: Resolve<C>, P7: Resolve<C>, P8: Resolve<C>, P9: Resolve<C>, Func: Fn(P1, P2, P3, P4, P5, P6, P7, P8, P9) -> Ret> System<C, (Ret, P1, P2, P3, P4, P5, P6, P7, P8, P9)> for Func {
    open spec fn run_ok(&self) -> bool {
        &&& forall|p1: P1, p2: P2, p3: P3, p4: P4, p5: P5, p6: P6, p7: P7, p8: P8, p9: P9| #[trigger] call_requires(*self, (p1, p2, p3, p4, p5, p6, p7, p8, p9))
        &&& forall|p1: P1, p2: P2, p3: P3, p4: P4, p5: P5, p6: P6, p7: P7, p8: P8, p9: P9, ret: Ret| #[trigger] call_ensures(*self, (p1, p2, p3, p4, p5, p6, p7, p8, p9), ret) ==> ret.action_ok()
    }

    open spec fn runs(&self, ctx: &RequestState<C>, captures: Seq<String>, r: Action, rest: Seq<String>) -> bool {
        exists|g1: ResolveGuard<P1>, c1: Seq<String>|
            #[trigger] P1::resolves(ctx, captures, g1, c1) && match g1 {
                ResolveGuard::Value(p1) =>
                    exists|g2: ResolveGuard<P2>, c2: Seq<String>|
                        #[trigger] P2::resolves(ctx, c1, g2, c2) && match g2 {
                            ResolveGuard::Value(p2) =>
                                exists|g3: ResolveGuard<P3>, c3: Seq<String>|
                                    #[trigger] P3::resolves(ctx, c2, g3, c3) && match g3 {
                                        ResolveGuard::Value(p3) =>
                                            exists|g4: ResolveGuard<P4>, c4: Seq<String>|
                                                #[trigger] P4::resolves(ctx, c3, g4, c4) && match g4 {
                                                    ResolveGuard::Value(p4) =>
                                                        exists|g5: ResolveGuard<P5>, c5: Seq<String>|
                                                            #[trigger] P5::resolves(ctx, c4, g5, c5) && match g5 {
                                                                ResolveGuard::Value(p5) =>
                                                                    exists|g6: ResolveGuard<P6>, c6: Seq<String>|
                                                                        #[trigger] P6::resolves(ctx, c5, g6, c6) && match g6 {
                                                                            ResolveGuard::Value(p6) =>
                                                                                exists|g7: ResolveGuard<P7>, c7: Seq<String>|
                                                                                    #[trigger] P7::resolves(ctx, c6, g7, c7) && match g7 {
                                                                                        ResolveGuard::Value(p7) =>
                                                                                            exists|g8: ResolveGuard<P8>, c8: Seq<String>|
                                                                                                #[trigger] P8::resolves(ctx, c7, g8, c8) && match g8 {
                                                                                                    ResolveGuard::Value(p8) =>
                                                                                                        exists|g9: ResolveGuard<P9>, c9: Seq<String>|
                                                                                                            #[trigger] P9::resolves(ctx, c8, g9, c9) && match g9 {
                                                                                                                ResolveGuard::Value(p9) =>
                                                                                                                    exists|ret: Ret| #[trigger] call_ensures(*self, (p1, p2, p3, p4, p5, p6, p7, p8, p9), ret) && ret.acts_as(r) && rest == c9,
                                                                                                                ResolveGuard::Respond(x) => r == Action::Respond(x) && rest == c9,
                                                                                                                ResolveGuard::Fail(e) => r == Action::Fail(e) && rest == c9,
                                                                                                            },
                                                                                                    ResolveGuard::Respond(x) => r == Action::Respond(x) && rest == c8,
                                                                                                    ResolveGuard::Fail(e) => r == Action::Fail(e) && rest == c8,
                                                                                                },
                                                                                        ResolveGuard::Respond(x) => r == Action::Respond(x) && rest == c7,
                                                                                        ResolveGuard::Fail(e) => r == Action::Fail(e) && rest == c7,
                                                                                    },
                                                                            ResolveGuard::Respond(x) => r == Action::Respond(x) && rest == c6,
                                                                            ResolveGuard::Fail(e) => r == Action::Fail(e) && rest == c6,
                                                                        },
                                                                ResolveGuard::Respond(x) => r == Action::Respond(x) && rest == c5,
                                                                ResolveGuard::Fail(e) => r == Action::Fail(e) && rest == c5,
                                                            },
                                                    ResolveGuard::Respond(x) => r == Action::Respond(x) && rest == c4,
                                                    ResolveGuard::Fail(e) => r == Action::Fail(e) && rest == c4,
                                                },
                                        ResolveGuard::Respond(x) => r == Action::Respond(x) && rest == c3,
                                        ResolveGuard::Fail(e) => r == Action::Fail(e) && rest == c3,
                                    },
                            ResolveGuard::Respond(x) => r == Action::Respond(x) && rest == c2,
                            ResolveGuard::Fail(e) => r == Action::Fail(e) && rest == c2,
                        },
                ResolveGuard::Respond(x) => r == Action::Respond(x) && rest == c1,
                ResolveGuard::Fail(e) => r == Action::Fail(e) && rest == c1,
            }
    }

    /// Resolves the parameters in order, then calls the function; the first parameter that
    /// does not resolve to a value decides the action instead.
    fn run(self, ctx: &RequestState<C>, captures: &mut Captures) -> (r: Action) {
        let (step, _) = resolve_param::<C, P1>(ctx, captures);
        let p1 = match step {
            Ok(v) => v,
            Err(a) => return a,
        };
        let (step, _) = resolve_param::<C, P2>(ctx, captures);
        let p2 = match step {
            Ok(v) => v,
            Err(a) => return a,
        };
        let (step, _) = resolve_param::<C, P3>(ctx, captures);
        let p3 = match step {
            Ok(v) => v,
            Err(a) => return a,
        };
        let (step, _) = resolve_param::<C, P4>(ctx, captures);
        let p4 = match step {
            Ok(v) => v,
            Err(a) => return a,
        };
        let (step, _) = resolve_param::<C, P5>(ctx, captures);
        let p5 = match step {
            Ok(v) => v,
            Err(a) => return a,
        };
        let (step, _) = resolve_param::<C, P6>(ctx, captures);
        let p6 = match step {
            Ok(v) => v,
            Err(a) => return a,
        };
        let (step, _) = resolve_param::<C, P7>(ctx, captures);
        let p7 = match step {
            Ok(v) => v,
            Err(a) => return a,
        };
        let (step, _) = resolve_param::<C, P8>(ctx, captures);
        let p8 = match step {
            Ok(v) => v,
            Err(a) => return a,
        };
        let (step, _) = resolve_param::<C, P9>(ctx, captures);
        let p9 = match step {
            Ok(v) => v,
            Err(a) => return a,
        };
        let ret = self(p1, p2, p3, p4, p5, p6, p7, p8, p9);
        ret.action()
    }
}

impl<C, Ret: IntoAction, P1: Resolve<C>, P2: Resolve<C>, P3: Resolve<C>, P4: Resolve<C>, P5: Resolve<C>, P6: Resolve<C>, P7: Resolve<C>, P8: Resolve<C>, P9: Resolve<C>, P10: Resolve<C>, Func: Fn(P1, P2, P3, P4, P5, P6, P7, P8, P9, P10) -> Ret> System<C, (Ret, P1, P2, P3, P4, P5, P6, P7, P8, P9, P10)> for Func {
    open spec fn run_ok(&self) -> bool {
        &&& forall|p1: P1, p2: P2, p3: P3, p4: P4, p5: P5, p6: P6, p7: P7, p8: P8, p9: P9, p10: P10| #[trigger] call_requires(*self, (p1, p2, p3, p4, p5, p6, p7, p8, p9, p10))
        &&& forall|p1: P1, p2: P2, p3: P3, p4: P4, p5: P5, p6: P6, p7: P7, p8: P8, p9: P9, p10: P10, ret: Ret| #[trigger] call_ensures(*self, (p1, p2, p3, p4, p5, p6, p7, p8, p9, p10), ret) ==> ret.action_ok()
    }

    open spec fn runs(&self, ctx: &RequestState<C>, captures: Seq<String>, r: Action, rest: Seq<String>) -> bool {
        exists|g1: ResolveGuard<P1>, c1: Seq<String>|
            #[trigger] P1::resolves(ctx, captures, g1, c1) && match g1 {
                ResolveGuard::Value(p1) =>
                    exists|g2: ResolveGuard<P2>, c2: Seq<String>|
                        #[trigger] P2::resolves(ctx, c1, g2, c2) && match g2 {
                            ResolveGuard::Value(p2) =>
                                exists|g3: ResolveGuard<P3>, c3: Seq<String>|
                                    #[trigger] P3::resolves(ctx, c2, g3, c3) && match g3 {
                                        ResolveGuard::Value(p3) =>
                                            exists|g4: ResolveGuard<P4>, c4: Seq<String>|
                                                #[trigger] P4::resolves(ctx, c3, g4, c4) && match g4 {
                                                    ResolveGuard::Value(p4) =>
                                                        exists|g5: ResolveGuard<P5>, c5: Seq<String>|
                                                            #[trigger] P5::resolves(ctx, c4, g5, c5) && match g5 {
                                                                ResolveGuard::Value(p5) =>
                                                                    exists|g6: ResolveGuard<P6>, c6: Seq<String>|
                                                                        #[trigger] P6::resolves(ctx, c5, g6, c6) && match g6 {
                                                                            ResolveGuard::Value(p6) =>
                                                                                exists|g7: ResolveGuard<P7>, c7: Seq<String>|
                                                                                    #[trigger] P7::resolves(ctx, c6, g7, c7) && match g7 {
                                                                                        ResolveGuard::Value(p7) =>
                                                                                            exists|g8: ResolveGuard<P8>, c8: Seq<String>|
                                                                                                #[trigger] P8::resolves(ctx, c7, g8, c8) && match g8 {
                                                                                                    ResolveGuard::Value(p8) =>
                                                                                                        exists|g9: ResolveGuard<P9>, c9: Seq<String>|
                                                                                                            #[trigger] P9::resolves(ctx, c8, g9, c9) && match g9 {
                                                                                                                ResolveGuard::Value(p9) =>
                                                                                                                    exists|g10: ResolveGuard<P10>, c10: Seq<String>|
                                                                                                                        #[trigger] P10::resolves(ctx, c9, g10, c10) && match g10 {
                                                                                                                            ResolveGuard::Value(p10) =>
                                                                                                                                exists|ret: Ret| #[trigger] call_ensures(*self, (p1, p2, p3, p4, p5, p6, p7, p8, p9, p10), ret) && ret.acts_as(r) && rest == c10,
                                                                                                                            ResolveGuard::Respond(x) => r == Action::Respond(x) && rest == c10,
                                                                                                                            ResolveGuard::Fail(e) => r == Action::Fail(e) && rest == c10,
                                                                                                                        },
                                                                                                                ResolveGuard::Respond(x) => r == Action::Respond(x) && rest == c9,
                                                                                                                ResolveGuard::Fail(e) => r == Action::Fail(e) && rest == c9,
                                                                                                            },
                                                                                                    ResolveGuard::Respond(x) => r == Action::Respond(x) && rest == c8,
                                                                                                    ResolveGuard::Fail(e) => r == Action::Fail(e) && rest == c8,
                                                                                                },
                                                                                        ResolveGuard::Respond(x) => r == Action::Respond(x) && rest == c7,
                                                                                        ResolveGuard::Fail(e) => r == Action::Fail(e) && rest == c7,
                                                                                    },
                                                                            ResolveGuard::Respond(x) => r == Action::Respond(x) && rest == c6,
                                                                            ResolveGuard::Fail(e) => r == Action::Fail(e) && rest == c6,
                                                                        },
                                                                ResolveGuard::Respond(x) => r == Action::Respond(x) && rest == c5,
                                                                ResolveGuard::Fail(e) => r == Action::Fail(e) && rest == c5,
                                                            },
                                                    ResolveGuard::Respond(x) => r == Action::Respond(x) && rest == c4,
                                                    ResolveGuard::Fail(e) => r == Action::Fail(e) && rest == c4,
                                                },
                                        ResolveGuard::Respond(x) => r == Action::Respond(x) && rest == c3,
                                        ResolveGuard::Fail(e) => r == Action::Fail(e) && rest == c3,
                                    },
                            ResolveGuard::Respond(x) => r == Action::Respond(x) && rest == c2,
                            ResolveGuard::Fail(e) => r == Action::Fail(e) && rest == c2,
                        },
                ResolveGuard::Respond(x) => r == Action::Respond(x) && rest == c1,
                ResolveGuard::Fail(e) => r == Action::Fail(e) && rest == c1,
            }
    }

    /// Resolves the parameters in order, then calls the function; the first parameter that
    /// does not resolve to a value decides the action instead.
    fn run(self, ctx: &RequestState<C>, captures: &mut Captures) -> (r: Action) {
        let (step, _) = resolve_param::<C, P1>(ctx, captures);
        let p1 = match step {
            Ok(v) => v,
            Err(a) => return a,
        };
        let (step, _) = resolve_param::<C, P2>(ctx, captures);
        let p2 = match step {
            Ok(v) => v,
            Err(a) => return a,
        };
        let (step, _) = resolve_param::<C, P3>(ctx, captures);
        let p3 = match step {
            Ok(v) => v,
            Err(a) => return a,
        };
        let (step, _) = resolve_param::<C, P4>(ctx, captures);
        let p4 = match step {
            Ok(v) => v,
            Err(a) => return a,
        };
        let (step, _) = resolve_param::<C, P5>(ctx, captures);
        let p5 = match step {
            Ok(v) => v,
            Err(a) => return a,
        };
        let (step, _) = resolve_param::<C, P6>(ctx, captures);
        let p6 = match step {
            Ok(v) => v,
            Err(a) => return a,
        };
        let (step, _) = resolve_param::<C, P7>(ctx, captures);
        let p7 = match step {
            Ok(v) => v,
            Err(a) => return a,
        };
        let (step, _) = resolve_param::<C, P8>(ctx, captures);
        let p8 = match step {
            Ok(v) => v,
            Err(a) => return a,
        };
        let (step, _) = resolve_param::<C, P9>(ctx, captures);
        let p9 = match step {
            Ok(v) => v,
            Err(a) => return a,
        };
        let (step, _) = resolve_param::<C, P10>(ctx, captures);
        let p10 = match step {
            Ok(v) => v,
            Err(a) => return a,
        };
        let ret = self(p1, p2, p3, p4, p5, p6, p7, p8, p9, p10);
        ret.action()
    }
}

impl<C, Ret: IntoAction, P1: Resolve<C>, P2: Resolve<C>, P3: Resolve<C>, P4: Resolve<C>, P5: Resolve<C>, P6: Resolve<C>, P7: Resolve<C>, P8: Resolve<C>, P9: Resolve<C>, P10: Resolve<C>, P11: Resolve<C>, Func: Fn(P1, P2, P3, P4, P5, P6, P7, P8, P9, P10, P11) -> Ret> System<C, (Ret, P1, P2, P3, P4, P5, P6, P7, P8, P9, P10, P11)> for Func {
    open spec fn run_ok(&self) -> bool {
        &&& forall|p1: P1, p2: P2, p3: P3, p4: P4, p5: P5, p6: P6, p7: P7, p8: P8, p9: P9, p10: P10, p11: P11| #[trigger] call_requires(*self, (p1, p2, p3, p4, p5, p6, p7, p8, p9, p10, p11))
        &&& forall|p1: P1, p2: P2, p3: P3, p4: P4, p5: P5, p6: P6, p7: P7, p8: P8, p9: P9, p10: P10, p11: P11, ret: Ret| #[trigger] call_ensures(*self, (p1, p2, p3, p4, p5, p6, p7, p8, p9, p10, p11), ret) ==> ret.action_ok()
    }

    open spec fn runs(&self, ctx: &RequestState<C>, captures: Seq<String>, r: Action, rest: Seq<String>) -> bool {
        exists|g1: ResolveGuard<P1>, c1: Seq<String>|
            #[trigger] P1::resolves(ctx, captures, g1, c1) && match g1 {
                ResolveGuard::Value(p1) =>
                    exists|g2: ResolveGuard<P2>, c2: Seq<String>|
                        #[trigger] P2::resolves(ctx, c1, g2, c2) && match g2 {
                            ResolveGuard::Value(p2) =>
                                exists|g3: ResolveGuard<P3>, c3: Seq<String>|
                                    #[trigger] P3::resolves(ctx, c2, g3, c3) && match g3 {
                                        ResolveGuard::Value(p3) =>
                                            exists|g4: ResolveGuard<P4>, c4: Seq<String>|
                                                #[trigger] P4::resolves(ctx, c3, g4, c4) && match g4 {
                                                    ResolveGuard::Value(p4) =>
                                                        exists|g5: ResolveGuard<P5>, c5: Seq<String>|
                                                            #[trigger] P5::resolves(ctx, c4, g5, c5) && match g5 {
                                                                ResolveGuard::Value(p5) =>
                                                                    exists|g6: ResolveGuard<P6>, c6: Seq<String>|
                                                                        #[trigger] P6::resolves(ctx, c5, g6, c6) && match g6 {
                                                                            ResolveGuard::Value(p6) =>
                                                                                exists|g7: ResolveGuard<P7>, c7: Seq<String>|
                                                                                    #[trigger] P7::resolves(ctx, c6, g7, c7) && match g7 {
                                                                                        ResolveGuard::Value(p7) =>
                                                                                            exists|g8: ResolveGuard<P8>, c8: Seq<String>|
                                                                                                #[trigger] P8::resolves(ctx, c7, g8, c8) && match g8 {
                                                                                                    ResolveGuard::Value(p8) =>
                                                                                                        exists|g9: ResolveGuard<P9>, c9: Seq<String>|
                                                                                                            #[trigger] P9::resolves(ctx, c8, g9, c9) && match g9 {
                                                                                                                ResolveGuard::Value(p9) =>
                                                                                                                    exists|g10: ResolveGuard<P10>, c10: Seq<String>|
                                                                                                                        #[trigger] P10::resolves(ctx, c9, g10, c10) && match g10 {
                                                                                                                            ResolveGuard::Value(p10) =>
                                                                                                                                exists|g11: ResolveGuard<P11>, c11: Seq<String>|
                                                                                                                                    #[trigger] P11::resolves(ctx, c10, g11, c11) && match g11 {
                                                                                                                                        ResolveGuard::Value(p11) =>
                                                                                                                                            exists|ret: Ret| #[trigger] call_ensures(*self, (p1, p2, p3, p4, p5, p6, p7, p8, p9, p10, p11), ret) && ret.acts_as(r) && rest == c11,
                                                                                                                                        ResolveGuard::Respond(x) => r == Action::Respond(x) && rest == c11,
                                                                                                                                        ResolveGuard::Fail(e) => r == Action::Fail(e) && rest == c11,
                                                                                                                                    },
                                                                                                                            ResolveGuard::Respond(x) => r == Action::Respond(x) && rest == c10,
                                                                                                                            ResolveGuard::Fail(e) => r == Action::Fail(e) && rest == c10,
                                                                                                                        },
                                                                                                                ResolveGuard::Respond(x) => r == Action::Respond(x) && rest == c9,
                                                                                                                ResolveGuard::Fail(e) => r == Action::Fail(e) && rest == c9,
                                                                                                            },
                                                                                                    ResolveGuard::Respond(x) => r == Action::Respond(x) && rest == c8,
                                                                                                    ResolveGuard::Fail(e) => r == Action::Fail(e) && rest == c8,
                                                                                                },
                                                                                        ResolveGuard::Respond(x) => r == Action::Respond(x) && rest == c7,
                                                                                        ResolveGuard::Fail(e) => r == Action::Fail(e) && rest == c7,
                                                                                    },
                                                                            ResolveGuard::Respond(x) => r == Action::Respond(x) && rest == c6,
                                                                            ResolveGuard::Fail(e) => r == Action::Fail(e) && rest == c6,
                                                                        },
                                                                ResolveGuard::Respond(x) => r == Action::Respond(x) && rest == c5,
                                                                ResolveGuard::Fail(e) => r == Action::Fail(e) && rest == c5,
                                                            },
                                                    ResolveGuard::Respond(x) => r == Action::Respond(x) && rest == c4,
                                                    ResolveGuard::Fail(e) => r == Action::Fail(e) && rest == c4,
                                                },
                                        ResolveGuard::Respond(x) => r == Action::Respond(x) && rest == c3,
                                        ResolveGuard::Fail(e) => r == Action::Fail(e) && rest == c3,
                                    },
                            ResolveGuard::Respond(x) => r == Action::Respond(x) && rest == c2,
                            ResolveGuard::Fail(e) => r == Action::Fail(e) && rest == c2,
                        },
                ResolveGuard::Respond(x) => r == Action::Respond(x) && rest == c1,
                ResolveGuard::Fail(e) => r == Action::Fail(e) && rest == c1,
            }
    }

    /// Resolves the parameters in order, then calls the function; the first parameter that
    /// does not resolve to a value decides the action instead.
    fn run(self, ctx: &RequestState<C>, captures: &mut Captures) -> (r: Action) {
        let (step, _) = resolve_param::<C, P1>(ctx, captures);
        let p1 = match step {
            Ok(v) => v,
            Err(a) => return a,
        };
        let (step, _) = resolve_param::<C, P2>(ctx, captures);
        let p2 = match step {
            Ok(v) => v,
            Err(a) => return a,
        };
        let (step, _) = resolve_param::<C, P3>(ctx, captures);
        let p3 = match step {
            Ok(v) => v,
            Err(a) => return a,
        };
        let (step, _) = resolve_param::<C, P4>(ctx, captures);
        let p4 = match step {
            Ok(v) => v,
            Err(a) => return a,
        };
        let (step, _) = resolve_param::<C, P5>(ctx, captures);
        let p5 = match step {
            Ok(v) => v,
            Err(a) => return a,
        };
        let (step, _) = resolve_param::<C, P6>(ctx, captures);
        let p6 = match step {
            Ok(v) => v,
            Err(a) => return a,
        };
        let (step, _) = resolve_param::<C, P7>(ctx, captures);
        let p7 = match step {
            Ok(v) => v,
            Err(a) => return a,
        };
        let (step, _) = resolve_param::<C, P8>(ctx, captures);
        let p8 = match step {
            Ok(v) => v,
            Err(a) => return a,
        };
        let (step, _) = resolve_param::<C, P9>(ctx, captures);
        let p9 = match step {
            Ok(v) => v,
            Err(a) => return a,
        };
        let (step, _) = resolve_param::<C, P10>(ctx, captures);
        let p10 = match step {
            Ok(v) => v,
            Err(a) => return a,
        };
        let (step, _) = resolve_param::<C, P11>(ctx, captures);
        let p11 = match step {
            Ok(v) => v,
            Err(a) => return a,
        };
        let ret = self(p1, p2, p3, p4, p5, p6, p7, p8, p9, p10, p11);
        ret.action()
    }
}

impl<C, Ret: IntoAction, P1: Resolve<C>, P2: Resolve<C>, P3: Resolve<C>, P4: Resolve<C>, P5: Resolve<C>, P6: Resolve<C>, P7: Resolve<C>, P8: Resolve<C>, P9: Resolve<C>, P10: Resolve<C>, P11: Resolve<C>, P12: Resolve<C>, Func: Fn(P1, P2, P3, P4, P5, P6, P7, P8, P9, P10, P11, P12) -> Ret> System<C, (Ret, P1, P2, P3, P4, P5, P6, P7, P8, P9, P10, P11, P12)> for Func {
    open spec fn run_ok(&self) -> bool {
        &&& forall|p1: P1, p2: P2, p3: P3, p4: P4, p5: P5, p6: P6, p7: P7, p8: P8, p9: P9, p10: P10, p11: P11, p12: P12| #[trigger] call_requires(*self, (p1, p2, p3, p4, p5, p6, p7, p8, p9, p10, p11, p12))
        &&& forall|p1: P1, p2: P2, p3: P3, p4: P4, p5: P5, p6: P6, p7: P7, p8: P8, p9: P9, p10: P10, p11: P11, p12: P12, ret: Ret| #[trigger] call_ensures(*self, (p1, p2, p3, p4, p5, p6, p7, p8, p9, p10, p11, p12), ret) ==> ret.action_ok()
    }

    open spec fn runs(&self, ctx: &RequestState<C>, captures: Seq<String>, r: Action, rest: Seq<String>) -> bool {
        exists|g1: ResolveGuard<P1>, c1: Seq<String>|
            #[trigger] P1::resolves(ctx, captures, g1, c1) && match g1 {
                ResolveGuard::Value(p1) =>
                    exists|g2: ResolveGuard<P2>, c2: Seq<String>|
                        #[trigger] P2::resolves(ctx, c1, g2, c2) && match g2 {
                            ResolveGuard::Value(p2) =>
                                exists|g3: ResolveGuard<P3>, c3: Seq<String>|
                                    #[trigger] P3::resolves(ctx, c2, g3, c3) && match g3 {
                                        ResolveGuard::Value(p3) =>
                                            exists|g4: ResolveGuard<P4>, c4: Seq<String>|
                                                #[trigger] P4::resolves(ctx, c3, g4, c4) && match g4 {
                                                    ResolveGuard::Value(p4) =>
                                                        exists|g5: ResolveGuard<P5>, c5: Seq<String>|
                                                            #[trigger] P5::resolves(ctx, c4, g5, c5) && match g5 {
                                                                ResolveGuard::Value(p5) =>
                                                                    exists|g6: ResolveGuard<P6>, c6: Seq<String>|
                                                                        #[trigger] P6::resolves(ctx, c5, g6, c6) && match g6 {
                                                                            ResolveGuard::Value(p6) =>
                                                                                exists|g7: ResolveGuard<P7>, c7: Seq<String>|
                                                                                    #[trigger] P7::resolves(ctx, c6, g7, c7) && match g7 {
                                                                                        ResolveGuard::Value(p7) =>
                                                                                            exists|g8: ResolveGuard<P8>, c8: Seq<String>|
                                                                                                #[trigger] P8::resolves(ctx, c7, g8, c8) && match g8 {
                                                                                                    ResolveGuard::Value(p8) =>
                                                                                                        exists|g9: ResolveGuard<P9>, c9: Seq<String>|
                                                                                                            #[trigger] P9::resolves(ctx, c8, g9, c9) && match g9 {
                                                                                                                ResolveGuard::Value(p9) =>
                                                                                                                    exists|g10: ResolveGuard<P10>, c10: Seq<String>|
                                                                                                                        #[trigger] P10::resolves(ctx, c9, g10, c10) && match g10 {
                                                                                                                            ResolveGuard::Value(p10) =>
                                                                                                                                exists|g11: ResolveGuard<P11>, c11: Seq<String>|
                                                                                                                                    #[trigger] P11::resolves(ctx, c10, g11, c11) && match g11 {
                                                                                                                                        ResolveGuard::Value(p11) =>
                                                                                                                                            exists|g12: ResolveGuard<P12>, c12: Seq<String>|
                                                                                                                                                #[trigger] P12::resolves(ctx, c11, g12, c12) && match g12 {
                                                                                                                                                    ResolveGuard::Value(p12) =>
                                                                                                                                                        exists|ret: Ret| #[trigger] call_ensures(*self, (p1, p2, p3, p4, p5, p6, p7, p8, p9, p10, p11, p12), ret) && ret.acts_as(r) && rest == c12,
                                                                                                                                                    ResolveGuard::Respond(x) => r == Action::Respond(x) && rest == c12,
                                                                                                                                                    ResolveGuard::Fail(e) => r == Action::Fail(e) && rest == c12,
                                                                                                                                                },
                                                                                                                                        ResolveGuard::Respond(x) => r == Action::Respond(x) && rest == c11,
                                                                                                                                        ResolveGuard::Fail(e) => r == Action::Fail(e) && rest == c11,
                                                                                                                                    },
                                                                                                                            ResolveGuard::Respond(x) => r == Action::Respond(x) && rest == c10,
                                                                                                                            ResolveGuard::Fail(e) => r == Action::Fail(e) && rest == c10,
                                                                                                                        },
                                                                                                                ResolveGuard::Respond(x) => r == Action::Respond(x) && rest == c9,
                                                                                                                ResolveGuard::Fail(e) => r == Action::Fail(e) && rest == c9,
                                                                                                            },
                                                                                                    ResolveGuard::Respond(x) => r == Action::Respond(x) && rest == c8,
                                                                                                    ResolveGuard::Fail(e) => r == Action::Fail(e) && rest == c8,
                                                                                                },
                                                                                        ResolveGuard::Respond(x) => r == Action::Respond(x) && rest == c7,
                                                                                        ResolveGuard::Fail(e) => r == Action::Fail(e) && rest == c7,
                                                                                    },
                                                                            ResolveGuard::Respond(x) => r == Action::Respond(x) && rest == c6,
                                                                            ResolveGuard::Fail(e) => r == Action::Fail(e) && rest == c6,
                                                                        },
                                                                ResolveGuard::Respond(x) => r == Action::Respond(x) && rest == c5,
                                                                ResolveGuard::Fail(e) => r == Action::Fail(e) && rest == c5,
                                                            },
                                                    ResolveGuard::Respond(x) => r == Action::Respond(x) && rest == c4,
                                                    ResolveGuard::Fail(e) => r == Action::Fail(e) && rest == c4,
                                                },
                                        ResolveGuard::Respond(x) => r == Action::Respond(x) && rest == c3,
                                        ResolveGuard::Fail(e) => r == Action::Fail(e) && rest == c3,
                                    },
                            ResolveGuard::Respond(x) => r == Action::Respond(x) && rest == c2,
                            ResolveGuard::Fail(e) => r == Action::Fail(e) && rest == c2,
                        },
                ResolveGuard::Respond(x) => r == Action::Respond(x) && rest == c1,
                ResolveGuard::Fail(e) => r == Action::Fail(e) && rest == c1,
            }
    }

    /// Resolves the parameters in order, then calls the function; the first parameter that
    /// does not resolve to a value decides the action instead.
    fn run(self, ctx: &RequestState<C>, captures: &mut Captures) -> (r: Action) {
        let (step, _) = resolve_param::<C, P1>(ctx, captures);
        let p1 = match step {
            Ok(v) => v,
            Err(a) => return a,
        };
        let (step, _) = resolve_param::<C, P2>(ctx, captures);
        let p2 = match step {
            Ok(v) => v,
            Err(a) => return a,
        };
        let (step, _) = resolve_param::<C, P3>(ctx, captures);
        let p3 = match step {
            Ok(v) => v,
            Err(a) => return a,
        };
        let (step, _) = resolve_param::<C, P4>(ctx, captures);
        let p4 = match step {
            Ok(v) => v,
            Err(a) => return a,
        };
        let (step, _) = resolve_param::<C, P5>(ctx, captures);
        let p5 = match step {
            Ok(v) => v,
            Err(a) => return a,
        };
        let (step, _) = resolve_param::<C, P6>(ctx, captures);
        let p6 = match step {
            Ok(v) => v,
            Err(a) => return a,
        };
        let (step, _) = resolve_param::<C, P7>(ctx, captures);
        let p7 = match step {
            Ok(v) => v,
            Err(a) => return a,
        };
        let (step, _) = resolve_param::<C, P8>(ctx, captures);
        let p8 = match step {
            Ok(v) => v,
            Err(a) => return a,
        };
        let (step, _) = resolve_param::<C, P9>(ctx, captures);
        let p9 = match step {
            Ok(v) => v,
            Err(a) => return a,
        };
        let (step, _) = resolve_param::<C, P10>(ctx, captures);
        let p10 = match step {
            Ok(v) => v,
            Err(a) => return a,
        };
        let (step, _) = resolve_param::<C, P11>(ctx, captures);
        let p11 = match step {
            Ok(v) => v,
            Err(a) => return a,
        };
        let (step, _) = resolve_param::<C, P12>(ctx, captures);
        let p12 = match step {
            Ok(v) => v,
            Err(a) => return a,
        };
        let ret = self(p1, p2, p3, p4, p5, p6, p7, p8, p9, p10, p11, p12);
        ret.action()
    }
}

impl<C, Ret: IntoAction, P1: Resolve<C>, P2: Resolve<C>, P3: Resolve<C>, P4: Resolve<C>, P5: Resolve<C>, P6: Resolve<C>, P7: Resolve<C>, P8: Resolve<C>, P9: Resolve<C>, P10: Resolve<C>, P11: Resolve<C>, P12: Resolve<C>, P13: Resolve<C>, Func: Fn(P1, P2, P3, P4, P5, P6, P7, P8, P9, P10, P11, P12, P13) -> Ret> System<C, (Ret, P1, P2, P3, P4, P5, P6, P7, P8, P9, P10, P11, P12, P13)> for Func {
    open spec fn run_ok(&self) -> bool {
        &&& forall|p1: P1, p2: P2, p3: P3, p4: P4, p5: P5, p6: P6, p7: P7, p8: P8, p9: P9, p10: P10, p11: P11, p12: P12, p13: P13| #[trigger] call_requires(*self, (p1, p2, p3, p4, p5, p6, p7, p8, p9, p10, p11, p12, p13))
        &&& forall|p1: P1, p2: P2, p3: P3, p4: P4, p5: P5, p6: P6, p7: P7, p8: P8, p9: P9, p10: P10, p11: P11, p12: P12, p13: P13, ret: Ret| #[trigger] call_ensures(*self, (p1, p2, p3, p4, p5, p6, p7, p8, p9, p10, p11, p12, p13), ret) ==> ret.action_ok()
    }

    open spec fn runs(&self, ctx: &RequestState<C>, captures: Seq<String>, r: Action, rest: Seq<String>) -> bool {
        exists|g1: ResolveGuard<P1>, c1: Seq<String>|
            #[trigger] P1::resolves(ctx, captures, g1, c1) && match g1 {
                ResolveGuard::Value(p1) =>
                    exists|g2: ResolveGuard<P2>, c2: Seq<String>|
                        #[trigger] P2::resolves(ctx, c1, g2, c2) && match g2 {
                            ResolveGuard::Value(p2) =>
                                exists|g3: ResolveGuard<P3>, c3: Seq<String>|
                                    #[trigger] P3::resolves(ctx, c2, g3, c3) && match g3 {
                                        ResolveGuard::Value(p3) =>
                                            exists|g4: ResolveGuard<P4>, c4: Seq<String>|
                                                #[trigger] P4::resolves(ctx, c3, g4, c4) && match g4 {
                                                    ResolveGuard::Value(p4) =>
                                                        exists|g5: ResolveGuard<P5>, c5: Seq<String>|
                                                            #[trigger] P5::resolves(ctx, c4, g5, c5) && match g5 {
                                                                ResolveGuard::Value(p5) =>
                                                                    exists|g6: ResolveGuard<P6>, c6: Seq<String>|
                                                                        #[trigger] P6::resolves(ctx, c5, g6, c6) && match g6 {
                                                                            ResolveGuard::Value(p6) =>
                                                                                exists|g7: ResolveGuard<P7>, c7: Seq<String>|
                                                                                    #[trigger] P7::resolves(ctx, c6, g7, c7) && match g7 {
                                                                                        ResolveGuard::Value(p7) =>
                                                                                            exists|g8: ResolveGuard<P8>, c8: Seq<String>|
                                                                                                #[trigger] P8::resolves(ctx, c7, g8, c8) && match g8 {
                                                                                                    ResolveGuard::Value(p8) =>
                                                                                                        exists|g9: ResolveGuard<P9>, c9: Seq<String>|
                                                                                                            #[trigger] P9::resolves(ctx, c8, g9, c9) && match g9 {
                                                                                                                ResolveGuard::Value(p9) =>
                                                                                                                    exists|g10: ResolveGuard<P10>, c10: Seq<String>|
                                                                                                                        #[trigger] P10::resolves(ctx, c9, g10, c10) && match g10 {
                                                                                                                            ResolveGuard::Value(p10) =>
                                                                                                                                exists|g11: ResolveGuard<P11>, c11: Seq<String>|
                                                                                                                                    #[trigger] P11::resolves(ctx, c10, g11, c11) && match g11 {
                                                                                                                                        ResolveGuard::Value(p11) =>
                                                                                                                                            exists|g12: ResolveGuard<P12>, c12: Seq<String>|
                                                                                                                                                #[trigger] P12::resolves(ctx, c11, g12, c12) && match g12 {
                                                                                                                                                    ResolveGuard::Value(p12) =>
                                                                                                                                                        exists|g13: ResolveGuard<P13>, c13: Seq<String>|
                                                                                                                                                            #[trigger] P13::resolves(ctx, c12, g13, c13) && match g13 {
                                                                                                                                                                ResolveGuard::Value(p13) =>
                                                                                                                                                                    exists|ret: Ret| #[trigger] call_ensures(*self, (p1, p2, p3, p4, p5, p6, p7, p8, p9, p10, p11, p12, p13), ret) && ret.acts_as(r) && rest == c13,
                                                                                                                                                                ResolveGuard::Respond(x) => r == Action::Respond(x) && rest == c13,
                                                                                                                                                                ResolveGuard::Fail(e) => r == Action::Fail(e) && rest == c13,
                                                                                                                                                            },
                                                                                                                                                    ResolveGuard::Respond(x) => r == Action::Respond(x) && rest == c12,
                                                                                                                                                    ResolveGuard::Fail(e) => r == Action::Fail(e) && rest == c12,
                                                                                                                                                },
                                                                                                                                        ResolveGuard::Respond(x) => r == Action::Respond(x) && rest == c11,
                                                                                                                                        ResolveGuard::Fail(e) => r == Action::Fail(e) && rest == c11,
                                                                                                                                    },
                                                                                                                            ResolveGuard::Respond(x) => r == Action::Respond(x) && rest == c10,
                                                                                                                            ResolveGuard::Fail(e) => r == Action::Fail(e) && rest == c10,
                                                                                                                        },
                                                                                                                ResolveGuard::Respond(x) => r == Action::Respond(x) && rest == c9,
                                                                                                                ResolveGuard::Fail(e) => r == Action::Fail(e) && rest == c9,
                                                                                                            },
                                                                                                    ResolveGuard::Respond(x) => r == Action::Respond(x) && rest == c8,
                                                                                                    ResolveGuard::Fail(e) => r == Action::Fail(e) && rest == c8,
                                                                                                },
                                                                                        ResolveGuard::Respond(x) => r == Action::Respond(x) && rest == c7,
                                                                                        ResolveGuard::Fail(e) => r == Action::Fail(e) && rest == c7,
                                                                                    },
                                                                            ResolveGuard::Respond(x) => r == Action::Respond(x) && rest == c6,
                                                                            ResolveGuard::Fail(e) => r == Action::Fail(e) && rest == c6,
                                                                        },
                                                                ResolveGuard::Respond(x) => r == Action::Respond(x) && rest == c5,
                                                                ResolveGuard::Fail(e) => r == Action::Fail(e) && rest == c5,
                                                            },
                                                    ResolveGuard::Respond(x) => r == Action::Respond(x) && rest == c4,
                                                    ResolveGuard::Fail(e) => r == Action::Fail(e) && rest == c4,
                                                },
                                        ResolveGuard::Respond(x) => r == Action::Respond(x) && rest == c3,
                                        ResolveGuard::Fail(e) => r == Action::Fail(e) && rest == c3,
                                    },
                            ResolveGuard::Respond(x) => r == Action::Respond(x) && rest == c2,
                            ResolveGuard::Fail(e) => r == Action::Fail(e) && rest == c2,
                        },
                ResolveGuard::Respond(x) => r == Action::Respond(x) && rest == c1,
                ResolveGuard::Fail(e) => r == Action::Fail(e) && rest == c1,
            }
    }

    /// Resolves the parameters in order, then calls the function; the first parameter that
    /// does not resolve to a value decides the action instead.
    fn run(self, ctx: &RequestState<C>, captures: &mut Captures) -> (r: Action) {
        let (step, _) = resolve_param::<C, P1>(ctx, captures);
        let p1 = match step {
            Ok(v) => v,
            Err(a) => return a,
        };
        let (step, _) = resolve_param::<C, P2>(ctx, captures);
        let p2 = match step {
            Ok(v) => v,
            Err(a) => return a,
        };
        let (step, _) = resolve_param::<C, P3>(ctx, captures);
        let p3 = match step {
            Ok(v) => v,
            Err(a) => return a,
        };
        let (step, _) = resolve_param::<C, P4>(ctx, captures);
        let p4 = match step {
            Ok(v) => v,
            Err(a) => return a,
        };
        let (step, _) = resolve_param::<C, P5>(ctx, captures);
        let p5 = match step {
            Ok(v) => v,
            Err(a) => return a,
        };
        let (step, _) = resolve_param::<C, P6>(ctx, captures);
        let p6 = match step {
            Ok(v) => v,
            Err(a) => return a,
        };
        let (step, _) = resolve_param::<C, P7>(ctx, captures);
        let p7 = match step {
            Ok(v) => v,
            Err(a) => return a,
        };
        let (step, _) = resolve_param::<C, P8>(ctx, captures);
        let p8 = match step {
            Ok(v) => v,
            Err(a) => return a,
        };
        let (step, _) = resolve_param::<C, P9>(ctx, captures);
        let p9 = match step {
            Ok(v) => v,
            Err(a) => return a,
        };
        let (step, _) = resolve_param::<C, P10>(ctx, captures);
        let p10 = match step {
            Ok(v) => v,
            Err(a) => return a,
        };
        let (step, _) = resolve_param::<C, P11>(ctx, captures);
        let p11 = match step {
            Ok(v) => v,
            Err(a) => return a,
        };
        let (step, _) = resolve_param::<C, P12>(ctx, captures);
        let p12 = match step {
            Ok(v) => v,
            Err(a) => return a,
        };
        let (step, _) = resolve_param::<C, P13>(ctx, captures);
        let p13 = match step {
            Ok(v) => v,
            Err(a) => return a,
        };
        let ret = self(p1, p2, p3, p4, p5, p6, p7, p8, p9, p10, p11, p12, p13);
        ret.action()
    }
}

impl<C, Ret: IntoAction, P1: Resolve<C>, P2: Resolve<C>, P3: Resolve<C>, P4: Resolve<C>, P5: Resolve<C>, P6: Resolve<C>, P7: Resolve<C>, P8: Resolve<C>, P9: Resolve<C>, P10: Resolve<C>, P11: Resolve<C>, P12: Resolve<C>, P13: Resolve<C>, P14: Resolve<C>, Func: Fn(P1, P2, P3, P4, P5, P6, P7, P8, P9, P10, P11, P12, P13, P14) -> Ret> System<C, (Ret, P1, P2, P3, P4, P5, P6, P7, P8, P9, P10, P11, P12, P13, P14)> for Func {
    open spec fn run_ok(&self) -> bool {
        &&& forall|p1: P1, p2: P2, p3: P3, p4: P4, p5: P5, p6: P6, p7: P7, p8: P8, p9: P9, p10: P10, p11: P11, p12: P12, p13: P13, p14: P14| #[trigger] call_requires(*self, (p1, p2, p3, p4, p5, p6, p7, p8, p9, p10, p11, p12, p13, p14))
        &&& forall|p1: P1, p2: P2, p3: P3, p4: P4, p5: P5, p6: P6, p7: P7, p8: P8, p9: P9, p10: P10, p11: P11, p12: P12, p13: P13, p14: P14, ret: Ret| #[trigger] call_ensures(*self, (p1, p2, p3, p4, p5, p6, p7, p8, p9, p10, p11, p12, p13, p14), ret) ==> ret.action_ok()
    }

    open spec fn runs(&self, ctx: &RequestState<C>, captures: Seq<String>, r: Action, rest: Seq<String>) -> bool {
        exists|g1: ResolveGuard<P1>, c1: Seq<String>|
            #[trigger] P1::resolves(ctx, captures, g1, c1) && match g1 {
                ResolveGuard::Value(p1) =>
                    exists|g2: ResolveGuard<P2>, c2: Seq<String>|
                        #[trigger] P2::resolves(ctx, c1, g2, c2) && match g2 {
                            ResolveGuard::Value(p2) =>
                                exists|g3: ResolveGuard<P3>, c3: Seq<String>|
                                    #[trigger] P3::resolves(ctx, c2, g3, c3) && match g3 {
                                        ResolveGuard::Value(p3) =>
                                            exists|g4: ResolveGuard<P4>, c4: Seq<String>|
                                                #[trigger] P4::resolves(ctx, c3, g4, c4) && match g4 {
                                                    ResolveGuard::Value(p4) =>
                                                        exists|g5: ResolveGuard<P5>, c5: Seq<String>|
                                                            #[trigger] P5::resolves(ctx, c4, g5, c5) && match g5 {
                                                                ResolveGuard::Value(p5) =>
                                                                    exists|g6: ResolveGuard<P6>, c6: Seq<String>|
                                                                        #[trigger] P6::resolves(ctx, c5, g6, c6) && match g6 {
                                                                            ResolveGuard::Value(p6) =>
                                                                                exists|g7: ResolveGuard<P7>, c7: Seq<String>|
                                                                                    #[trigger] P7::resolves(ctx, c6, g7, c7) && match g7 {
                                                                                        ResolveGuard::Value(p7) =>
                                                                                            exists|g8: ResolveGuard<P8>, c8: Seq<String>|
                                                                                                #[trigger] P8::resolves(ctx, c7, g8, c8) && match g8 {
                                                                                                    ResolveGuard::Value(p8) =>
                                                                                                        exists|g9: ResolveGuard<P9>, c9: Seq<String>|
                                                                                                            #[trigger] P9::resolves(ctx, c8, g9, c9) && match g9 {
                                                                                                                ResolveGuard::Value(p9) =>
                                                                                                                    exists|g10: ResolveGuard<P10>, c10: Seq<String>|
                                                                                                                        #[trigger] P10::resolves(ctx, c9, g10, c10) && match g10 {
                                                                                                                            ResolveGuard::Value(p10) =>
                                                                                                                                exists|g11: ResolveGuard<P11>, c11: Seq<String>|
                                                                                                                                    #[trigger] P11::resolves(ctx, c10, g11, c11) && match g11 {
                                                                                                                                        ResolveGuard::Value(p11) =>
                                                                                                                                            exists|g12: ResolveGuard<P12>, c12: Seq<String>|
                                                                                                                                                #[trigger] P12::resolves(ctx, c11, g12, c12) && match g12 {
                                                                                                                                                    ResolveGuard::Value(p12) =>
                                                                                                                                                        exists|g13: ResolveGuard<P13>, c13: Seq<String>|
                                                                                                                                                            #[trigger] P13::resolves(ctx, c12, g13, c13) && match g13 {
                                                                                                                                                                ResolveGuard::Value(p13) =>
                                                                                                                                                                    exists|g14: ResolveGuard<P14>, c14: Seq<String>|
                                                                                                                                                                        #[trigger] P14::resolves(ctx, c13, g14, c14) && match g14 {
                                                                                                                                                                            ResolveGuard::Value(p14) =>
                                                                                                                                                                                exists|ret: Ret| #[trigger] call_ensures(*self, (p1, p2, p3, p4, p5, p6, p7, p8, p9, p10, p11, p12, p13, p14), ret) && ret.acts_as(r) && rest == c14,
                                                                                                                                                                            ResolveGuard::Respond(x) => r == Action::Respond(x) && rest == c14,
                                                                                                                                                                            ResolveGuard::Fail(e) => r == Action::Fail(e) && rest == c14,
                                                                                                                                                                        },
                                                                                                                                                                ResolveGuard::Respond(x) => r == Action::Respond(x) && rest == c13,
                                                                                                                                                                ResolveGuard::Fail(e) => r == Action::Fail(e) && rest == c13,
                                                                                                                                                            },
                                                                                                                                                    ResolveGuard::Respond(x) => r == Action::Respond(x) && rest == c12,
                                                                                                                                                    ResolveGuard::Fail(e) => r == Action::Fail(e) && rest == c12,
                                                                                                                                                },
                                                                                                                                        ResolveGuard::Respond(x) => r == Action::Respond(x) && rest == c11,
                                                                                                                                        ResolveGuard::Fail(e) => r == Action::Fail(e) && rest == c11,
                                                                                                                                    },
                                                                                                                            ResolveGuard::Respond(x) => r == Action::Respond(x) && rest == c10,
                                                                                                                            ResolveGuard::Fail(e) => r == Action::Fail(e) && rest == c10,
                                                                                                                        },
                                                                                                                ResolveGuard::Respond(x) => r == Action::Respond(x) && rest == c9,
                                                                                                                ResolveGuard::Fail(e) => r == Action::Fail(e) && rest == c9,
                                                                                                            },
                                                                                                    ResolveGuard::Respond(x) => r == Action::Respond(x) && rest == c8,
                                                                                                    ResolveGuard::Fail(e) => r == Action::Fail(e) && rest == c8,
                                                                                                },
                                                                                        ResolveGuard::Respond(x) => r == Action::Respond(x) && rest == c7,
                                                                                        ResolveGuard::Fail(e) => r == Action::Fail(e) && rest == c7,
                                                                                    },
                                                                            ResolveGuard::Respond(x) => r == Action::Respond(x) && rest == c6,
                                                                            ResolveGuard::Fail(e) => r == Action::Fail(e) && rest == c6,
                                                                        },
                                                                ResolveGuard::Respond(x) => r == Action::Respond(x) && rest == c5,
                                                                ResolveGuard::Fail(e) => r == Action::Fail(e) && rest == c5,
                                                            },
                                                    ResolveGuard::Respond(x) => r == Action::Respond(x) && rest == c4,
                                                    ResolveGuard::Fail(e) => r == Action::Fail(e) && rest == c4,
                                                },
                                        ResolveGuard::Respond(x) => r == Action::Respond(x) && rest == c3,
                                        ResolveGuard::Fail(e) => r == Action::Fail(e) && rest == c3,
                                    },
                            ResolveGuard::Respond(x) => r == Action::Respond(x) && rest == c2,
                            ResolveGuard::Fail(e) => r == Action::Fail(e) && rest == c2,
                        },
                ResolveGuard::Respond(x) => r == Action::Respond(x) && rest == c1,
                ResolveGuard::Fail(e) => r == Action::Fail(e) && rest == c1,
            }
    }

    /// Resolves the parameters in order, then calls the function; the first parameter that
    /// does not resolve to a value decides the action instead.
    fn run(self, ctx: &RequestState<C>, captures: &mut Captures) -> (r: Action) {
        let (step, _) = resolve_param::<C, P1>(ctx, captures);
        let p1 = match step {
            Ok(v) => v,
            Err(a) => return a,
        };
        let (step, _) = resolve_param::<C, P2>(ctx, captures);
        let p2 = match step {
            Ok(v) => v,
            Err(a) => return a,
        };
        let (step, _) = resolve_param::<C, P3>(ctx, captures);
        let p3 = match step {
            Ok(v) => v,
            Err(a) => return a,
        };
        let (step, _) = resolve_param::<C, P4>(ctx, captures);
        let p4 = match step {
            Ok(v) => v,
            Err(a) => return a,
        };
        let (step, _) = resolve_param::<C, P5>(ctx, captures);
        let p5 = match step {
            Ok(v) => v,
            Err(a) => return a,
        };
        let (step, _) = resolve_param::<C, P6>(ctx, captures);
        let p6 = match step {
            Ok(v) => v,
            Err(a) => return a,
        };
        let (step, _) = resolve_param::<C, P7>(ctx, captures);
        let p7 = match step {
            Ok(v) => v,
            Err(a) => return a,
        };
        let (step, _) = resolve_param::<C, P8>(ctx, captures);
        let p8 = match step {
            Ok(v) => v,
            Err(a) => return a,
        };
        let (step, _) = resolve_param::<C, P9>(ctx, captures);
        let p9 = match step {
            Ok(v) => v,
            Err(a) => return a,
        };
        let (step, _) = resolve_param::<C, P10>(ctx, captures);
        let p10 = match step {
            Ok(v) => v,
            Err(a) => return a,
        };
        let (step, _) = resolve_param::<C, P11>(ctx, captures);
        let p11 = match step {
            Ok(v) => v,
            Err(a) => return a,
        };
        let (step, _) = resolve_param::<C, P12>(ctx, captures);
        let p12 = match step {
            Ok(v) => v,
            Err(a) => return a,
        };
        let (step, _) = resolve_param::<C, P13>(ctx, captures);
        let p13 = match step {
            Ok(v) => v,
            Err(a) => return a,
        };
        let (step, _) = resolve_param::<C, P14>(ctx, captures);
        let p14 = match step {
            Ok(v) => v,
            Err(a) => return a,
        };
        let ret = self(p1, p2, p3, p4, p5, p6, p7, p8, p9, p10, p11, p12, p13, p14);
        ret.action()
    }
}

impl<C, Ret: IntoAction, P1: Resolve<C>, P2: Resolve<C>, P3: Resolve<C>, P4: Resolve<C>, P5: Resolve<C>, P6: Resolve<C>, P7: Resolve<C>, P8: Resolve<C>, P9: Resolve<C>, P10: Resolve<C>, P11: Resolve<C>, P12: Resolve<C>, P13: Resolve<C>, P14: Resolve<C>, P15: Resolve<C>, Func: Fn(P1, P2, P3, P4, P5, P6, P7, P8, P9, P10, P11, P12, P13, P14, P15) -> Ret> System<C, (Ret, P1, P2, P3, P4, P5, P6, P7, P8, P9, P10, P11, P12, P13, P14, P15)> for Func {
    open spec fn run_ok(&self) -> bool {
        &&& forall|p1: P1, p2: P2, p3: P3, p4: P4, p5: P5, p6: P6, p7: P7, p8: P8, p9: P9, p10: P10, p11: P11, p12: P12, p13: P13, p14: P14, p15: P15| #[trigger] call_requires(*self, (p1, p2, p3, p4, p5, p6, p7, p8, p9, p10, p11, p12, p13, p14, p15))
        &&& forall|p1: P1, p2: P2, p3: P3, p4: P4, p5: P5, p6: P6, p7: P7, p8: P8, p9: P9, p10: P10, p11: P11, p12: P12, p13: P13, p14: P14, p15: P15, ret: Ret| #[trigger] call_ensures(*self, (p1, p2, p3, p4, p5, p6, p7, p8, p9, p10, p11, p12, p13, p14, p15), ret) ==> ret.action_ok()
    }

    open spec fn runs(&self, ctx: &RequestState<C>, captures: Seq<String>, r: Action, rest: Seq<String>) -> bool {
        exists|g1: ResolveGuard<P1>, c1: Seq<String>|
            #[trigger] P1::resolves(ctx, captures, g1, c1) && match g1 {
                ResolveGuard::Value(p1) =>
                    exists|g2: ResolveGuard<P2>, c2: Seq<String>|
                        #[trigger] P2::resolves(ctx, c1, g2, c2) && match g2 {
                            ResolveGuard::Value(p2) =>
                                exists|g3: ResolveGuard<P3>, c3: Seq<String>|
                                    #[trigger] P3::resolves(ctx, c2, g3, c3) && match g3 {
                                        ResolveGuard::Value(p3) =>
                                            exists|g4: ResolveGuard<P4>, c4: Seq<String>|
                                                #[trigger] P4::resolves(ctx, c3, g4, c4) && match g4 {
                                                    ResolveGuard::Value(p4) =>
                                                        exists|g5: ResolveGuard<P5>, c5: Seq<String>|
                                                            #[trigger] P5::resolves(ctx, c4, g5, c5) && match g5 {
                                                                ResolveGuard::Value(p5) =>
                                                                    exists|g6: ResolveGuard<P6>, c6: Seq<String>|
                                                                        #[trigger] P6::resolves(ctx, c5, g6, c6) && match g6 {
                                                                            ResolveGuard::Value(p6) =>
                                                                                exists|g7: ResolveGuard<P7>, c7: Seq<String>|
                                                                                    #[trigger] P7::resolves(ctx, c6, g7, c7) && match g7 {
                                                                                        ResolveGuard::Value(p7) =>
                                                                                            exists|g8: ResolveGuard<P8>, c8: Seq<String>|
                                                                                                #[trigger] P8::resolves(ctx, c7, g8, c8) && match g8 {
                                                                                                    ResolveGuard::Value(p8) =>
                                                                                                        exists|g9: ResolveGuard<P9>, c9: Seq<String>|
                                                                                                            #[trigger] P9::resolves(ctx, c8, g9, c9) && match g9 {
                                                                                                                ResolveGuard::Value(p9) =>
                                                                                                                    exists|g10: ResolveGuard<P10>, c10: Seq<String>|
                                                                                                                        #[trigger] P10::resolves(ctx, c9, g10, c10) && match g10 {
                                                                                                                            ResolveGuard::Value(p10) =>
                                                                                                                                exists|g11: ResolveGuard<P11>, c11: Seq<String>|
                                                                                                                                    #[trigger] P11::resolves(ctx, c10, g11, c11) && match g11 {
                                                                                                                                        ResolveGuard::Value(p11) =>
                                                                                                                                            exists|g12: ResolveGuard<P12>, c12: Seq<String>|
                                                                                                                                                #[trigger] P12::resolves(ctx, c11, g12, c12) && match g12 {
                                                                                                                                                    ResolveGuard::Value(p12) =>
                                                                                                                                                        exists|g13: ResolveGuard<P13>, c13: Seq<String>|
                                                                                                                                                            #[trigger] P13::resolves(ctx, c12, g13, c13) && match g13 {
                                                                                                                                                                ResolveGuard::Value(p13) =>
                                                                                                                                                                    exists|g14: ResolveGuard<P14>, c14: Seq<String>|
                                                                                                                                                                        #[trigger] P14::resolves(ctx, c13, g14, c14) && match g14 {
                                                                                                                                                                            ResolveGuard::Value(p14) =>
                                                                                                                                                                                exists|g15: ResolveGuard<P15>, c15: Seq<String>|
                                                                                                                                                                                    #[trigger] P15::resolves(ctx, c14, g15, c15) && match g15 {
                                                                                                                                                                                        ResolveGuard::Value(p15) =>
                                                                                                                                                                                            exists|ret: Ret| #[trigger] call_ensures(*self, (p1, p2, p3, p4, p5, p6, p7, p8, p9, p10, p11, p12, p13, p14, p15), ret) && ret.acts_as(r) && rest == c15,
                                                                                                                                                                                        ResolveGuard::Respond(x) => r == Action::Respond(x) && rest == c15,
                                                                                                                                                                                        ResolveGuard::Fail(e) => r == Action::Fail(e) && rest == c15,
                                                                                                                                                                                    },
                                                                                                                                                                            ResolveGuard::Respond(x) => r == Action::Respond(x) && rest == c14,
                                                                                                                                                                            ResolveGuard::Fail(e) => r == Action::Fail(e) && rest == c14,
                                                                                                                                                                        },
                                                                                                                                                                ResolveGuard::Respond(x) => r == Action::Respond(x) && rest == c13,
                                                                                                                                                                ResolveGuard::Fail(e) => r == Action::Fail(e) && rest == c13,
                                                                                                                                                            },
                                                                                                                                                    ResolveGuard::Respond(x) => r == Action::Respond(x) && rest == c12,
                                                                                                                                                    ResolveGuard::Fail(e) => r == Action::Fail(e) && rest == c12,
                                                                                                                                                },
                                                                                                                                        ResolveGuard::Respond(x) => r == Action::Respond(x) && rest == c11,
                                                                                                                                        ResolveGuard::Fail(e) => r == Action::Fail(e) && rest == c11,
                                                                                                                                    },
                                                                                                                            ResolveGuard::Respond(x) => r == Action::Respond(x) && rest == c10,
                                                                                                                            ResolveGuard::Fail(e) => r == Action::Fail(e) && rest == c10,
                                                                                                                        },
                                                                                                                ResolveGuard::Respond(x) => r == Action::Respond(x) && rest == c9,
                                                                                                                ResolveGuard::Fail(e) => r == Action::Fail(e) && rest == c9,
                                                                                                            },
                                                                                                    ResolveGuard::Respond(x) => r == Action::Respond(x) && rest == c8,
                                                                                                    ResolveGuard::Fail(e) => r == Action::Fail(e) && rest == c8,
                                                                                                },
                                                                                        ResolveGuard::Respond(x) => r == Action::Respond(x) && rest == c7,
                                                                                        ResolveGuard::Fail(e) => r == Action::Fail(e) && rest == c7,
                                                                                    },
                                                                            ResolveGuard::Respond(x) => r == Action::Respond(x) && rest == c6,
                                                                            ResolveGuard::Fail(e) => r == Action::Fail(e) && rest == c6,
                                                                        },
                                                                ResolveGuard::Respond(x) => r == Action::Respond(x) && rest == c5,
                                                                ResolveGuard::Fail(e) => r == Action::Fail(e) && rest == c5,
                                                            },
                                                    ResolveGuard::Respond(x) => r == Action::Respond(x) && rest == c4,
                                                    ResolveGuard::Fail(e) => r == Action::Fail(e) && rest == c4,
                                                },
                                        ResolveGuard::Respond(x) => r == Action::Respond(x) && rest == c3,
                                        ResolveGuard::Fail(e) => r == Action::Fail(e) && rest == c3,
                                    },
                            ResolveGuard::Respond(x) => r == Action::Respond(x) && rest == c2,
                            ResolveGuard::Fail(e) => r == Action::Fail(e) && rest == c2,
                        },
                ResolveGuard::Respond(x) => r == Action::Respond(x) && rest == c1,
                ResolveGuard::Fail(e) => r == Action::Fail(e) && rest == c1,
            }
    }

    /// Resolves the parameters in order, then calls the function; the first parameter that
    /// does not resolve to a value decides the action instead.
    fn run(self, ctx: &RequestState<C>, captures: &mut Captures) -> (r: Action) {
        let (step, _) = resolve_param::<C, P1>(ctx, captures);
        let p1 = match step {
            Ok(v) => v,
            Err(a) => return a,
        };
        let (step, _) = resolve_param::<C, P2>(ctx, captures);
        let p2 = match step {
            Ok(v) => v,
            Err(a) => return a,
        };
        let (step, _) = resolve_param::<C, P3>(ctx, captures);
        let p3 = match step {
            Ok(v) => v,
            Err(a) => return a,
        };
        let (step, _) = resolve_param::<C, P4>(ctx, captures);
        let p4 = match step {
            Ok(v) => v,
            Err(a) => return a,
        };
        let (step, _) = resolve_param::<C, P5>(ctx, captures);
        let p5 = match step {
            Ok(v) => v,
            Err(a) => return a,
        };
        let (step, _) = resolve_param::<C, P6>(ctx, captures);
        let p6 = match step {
            Ok(v) => v,
            Err(a) => return a,
        };
        let (step, _) = resolve_param::<C, P7>(ctx, captures);
        let p7 = match step {
            Ok(v) => v,
            Err(a) => return a,
        };
        let (step, _) = resolve_param::<C, P8>(ctx, captures);
        let p8 = match step {
            Ok(v) => v,
            Err(a) => return a,
        };
        let (step, _) = resolve_param::<C, P9>(ctx, captures);
        let p9 = match step {
            Ok(v) => v,
            Err(a) => return a,
        };
        let (step, _) = resolve_param::<C, P10>(ctx, captures);
        let p10 = match step {
            Ok(v) => v,
            Err(a) => return a,
        };
        let (step, _) = resolve_param::<C, P11>(ctx, captures);
        let p11 = match step {
            Ok(v) => v,
            Err(a) => return a,
        };
        let (step, _) = resolve_param::<C, P12>(ctx, captures);
        let p12 = match step {
            Ok(v) => v,
            Err(a) => return a,
        };
        let (step, _) = resolve_param::<C, P13>(ctx, captures);
        let p13 = match step {
            Ok(v) => v,
            Err(a) => return a,
        };
        let (step, _) = resolve_param::<C, P14>(ctx, captures);
        let p14 = match step {
            Ok(v) => v,
            Err(a) => return a,
        };
        let (step, _) = resolve_param::<C, P15>(ctx, captures);
        let p15 = match step {
            Ok(v) => v,
            Err(a) => return a,
        };
        let ret = self(p1, p2, p3, p4, p5, p6, p7, p8, p9, p10, p11, p12, p13, p14, p15);
        ret.action()
    }
}

impl<C, Ret: IntoAction, P1: Resolve<C>, P2: Resolve<C>, P3: Resolve<C>, P4: Resolve<C>, P5: Resolve<C>, P6: Resolve<C>, P7: Resolve<C>, P8: Resolve<C>, P9: Resolve<C>, P10: Resolve<C>, P11: Resolve<C>, P12: Resolve<C>, P13: Resolve<C>, P14: Resolve<C>, P15: Resolve<C>, P16: Resolve<C>, Func: Fn(P1, P2, P3, P4, P5, P6, P7, P8, P9, P10, P11, P12, P13, P14, P15, P16) -> Ret> System<C, (Ret, P1, P2, P3, P4, P5, P6, P7, P8, P9, P10, P11, P12, P13, P14, P15, P16)> for Func {
    open spec fn run_ok(&self) -> bool {
        &&& forall|p1: P1, p2: P2, p3: P3, p4: P4, p5: P5, p6: P6, p7: P7, p8: P8, p9: P9, p10: P10, p11: P11, p12: P12, p13: P13, p14: P14, p15: P15, p16: P16| #[trigger] call_requires(*self, (p1, p2, p3, p4, p5, p6, p7, p8, p9, p10, p11, p12, p13, p14, p15, p16))
        &&& forall|p1: P1, p2: P2, p3: P3, p4: P4, p5: P5, p6: P6, p7: P7, p8: P8, p9: P9, p10: P10, p11: P11, p12: P12, p13: P13, p14: P14, p15: P15, p16: P16, ret: Ret| #[trigger] call_ensures(*self, (p1, p2, p3, p4, p5, p6, p7, p8, p9, p10, p11, p12, p13, p14, p15, p16), ret) ==> ret.action_ok()
    }

    open spec fn runs(&self, ctx: &RequestState<C>, captures: Seq<String>, r: Action, rest: Seq<String>) -> bool {
        exists|g1: ResolveGuard<P1>, c1: Seq<String>|
            #[trigger] P1::resolves(ctx, captures, g1, c1) && match g1 {
                ResolveGuard::Value(p1) =>
                    exists|g2: ResolveGuard<P2>, c2: Seq<String>|
                        #[trigger] P2::resolves(ctx, c1, g2, c2) && match g2 {
                            ResolveGuard::Value(p2) =>
                                exists|g3: ResolveGuard<P3>, c3: Seq<String>|
                                    #[trigger] P3::resolves(ctx, c2, g3, c3) && match g3 {
                                        ResolveGuard::Value(p3) =>
                                            exists|g4: ResolveGuard<P4>, c4: Seq<String>|
                                                #[trigger] P4::resolves(ctx, c3, g4, c4) && match g4 {
                                                    ResolveGuard::Value(p4) =>
                                                        exists|g5: ResolveGuard<P5>, c5: Seq<String>|
                                                            #[trigger] P5::resolves(ctx, c4, g5, c5) && match g5 {
                                                                ResolveGuard::Value(p5) =>
                                                                    exists|g6: ResolveGuard<P6>, c6: Seq<String>|
                                                                        #[trigger] P6::resolves(ctx, c5, g6, c6) && match g6 {
                                                                            ResolveGuard::Value(p6) =>
                                                                                exists|g7: ResolveGuard<P7>, c7: Seq<String>|
                                                                                    #[trigger] P7::resolves(ctx, c6, g7, c7) && match g7 {
                                                                                        ResolveGuard::Value(p7) =>
                                                                                            exists|g8: ResolveGuard<P8>, c8: Seq<String>|
                                                                                                #[trigger] P8::resolves(ctx, c7, g8, c8) && match g8 {
                                                                                                    ResolveGuard::Value(p8) =>
                                                                                                        exists|g9: ResolveGuard<P9>, c9: Seq<String>|
                                                                                                            #[trigger] P9::resolves(ctx, c8, g9, c9) && match g9 {
                                                                                                                ResolveGuard::Value(p9) =>
                                                                                                                    exists|g10: ResolveGuard<P10>, c10: Seq<String>|
                                                                                                                        #[trigger] P10::resolves(ctx, c9, g10, c10) && match g10 {
                                                                                                                            ResolveGuard::Value(p10) =>
                                                                                                                                exists|g11: ResolveGuard<P11>, c11: Seq<String>|
                                                                                                                                    #[trigger] P11::resolves(ctx, c10, g11, c11) && match g11 {
                                                                                                                                        ResolveGuard::Value(p11) =>
                                                                                                                                            exists|g12: ResolveGuard<P12>, c12: Seq<String>|
                                                                                                                                                #[trigger] P12::resolves(ctx, c11, g12, c12) && match g12 {
                                                                                                                                                    ResolveGuard::Value(p12) =>
                                                                                                                                                        exists|g13: ResolveGuard<P13>, c13: Seq<String>|
                                                                                                                                                            #[trigger] P13::resolves(ctx, c12, g13, c13) && match g13 {
                                                                                                                                                                ResolveGuard::Value(p13) =>
                                                                                                                                                                    exists|g14: ResolveGuard<P14>, c14: Seq<String>|
                                                                                                                                                                        #[trigger] P14::resolves(ctx, c13, g14, c14) && match g14 {
                                                                                                                                                                            ResolveGuard::Value(p14) =>
                                                                                                                                                                                exists|g15: ResolveGuard<P15>, c15: Seq<String>|
                                                                                                                                                                                    #[trigger] P15::resolves(ctx, c14, g15, c15) && match g15 {
                                                                                                                                                                                        ResolveGuard::Value(p15) =>
                                                                                                                                                                                            exists|g16: ResolveGuard<P16>, c16: Seq<String>|
                                                                                                                                                                                                #[trigger] P16::resolves(ctx, c15, g16, c16) && match g16 {
                                                                                                                                                                                                    ResolveGuard::Value(p16) =>
                                                                                                                                                                                                        exists|ret: Ret| #[trigger] call_ensures(*self, (p1, p2, p3, p4, p5, p6, p7, p8, p9, p10, p11, p12, p13, p14, p15, p16), ret) && ret.acts_as(r) && rest == c16,
                                                                                                                                                                                                    ResolveGuard::Respond(x) => r == Action::Respond(x) && rest == c16,
                                                                                                                                                                                                    ResolveGuard::Fail(e) => r == Action::Fail(e) && rest == c16,
                                                                                                                                                                                                },
                                                                                                                                                                                        ResolveGuard::Respond(x) => r == Action::Respond(x) && rest == c15,
                                                                                                                                                                                        ResolveGuard::Fail(e) => r == Action::Fail(e) && rest == c15,
                                                                                                                                                                                    },
                                                                                                                                                                            ResolveGuard::Respond(x) => r == Action::Respond(x) && rest == c14,
                                                                                                                                                                            ResolveGuard::Fail(e) => r == Action::Fail(e) && rest == c14,
                                                                                                                                                                        },
                                                                                                                                                                ResolveGuard::Respond(x) => r == Action::Respond(x) && rest == c13,
                                                                                                                                                                ResolveGuard::Fail(e) => r == Action::Fail(e) && rest == c13,
                                                                                                                                                            },
                                                                                                                                                    ResolveGuard::Respond(x) => r == Action::Respond(x) && rest == c12,
                                                                                                                                                    ResolveGuard::Fail(e) => r == Action::Fail(e) && rest == c12,
                                                                                                                                                },
                                                                                                                                        ResolveGuard::Respond(x) => r == Action::Respond(x) && rest == c11,
                                                                                                                                        ResolveGuard::Fail(e) => r == Action::Fail(e) && rest == c11,
                                                                                                                                    },
                                                                                                                            ResolveGuard::Respond(x) => r == Action::Respond(x) && rest == c10,
                                                                                                                            ResolveGuard::Fail(e) => r == Action::Fail(e) && rest == c10,
                                                                                                                        },
                                                                                                                ResolveGuard::Respond(x) => r == Action::Respond(x) && rest == c9,
                                                                                                                ResolveGuard::Fail(e) => r == Action::Fail(e) && rest == c9,
                                                                                                            },
                                                                                                    ResolveGuard::Respond(x) => r == Action::Respond(x) && rest == c8,
                                                                                                    ResolveGuard::Fail(e) => r == Action::Fail(e) && rest == c8,
                                                                                                },
                                                                                        ResolveGuard::Respond(x) => r == Action::Respond(x) && rest == c7,
                                                                                        ResolveGuard::Fail(e) => r == Action::Fail(e) && rest == c7,
                                                                                    },
                                                                            ResolveGuard::Respond(x) => r == Action::Respond(x) && rest == c6,
                                                                            ResolveGuard::Fail(e) => r == Action::Fail(e) && rest == c6,
                                                                        },
                                                                ResolveGuard::Respond(x) => r == Action::Respond(x) && rest == c5,
                                                                ResolveGuard::Fail(e) => r == Action::Fail(e) && rest == c5,
                                                            },
                                                    ResolveGuard::Respond(x) => r == Action::Respond(x) && rest == c4,
                                                    ResolveGuard::Fail(e) => r == Action::Fail(e) && rest == c4,
                                                },
                                        ResolveGuard::Respond(x) => r == Action::Respond(x) && rest == c3,
                                        ResolveGuard::Fail(e) => r == Action::Fail(e) && rest == c3,
                                    },
                            ResolveGuard::Respond(x) => r == Action::Respond(x) && rest == c2,
                            ResolveGuard::Fail(e) => r == Action::Fail(e) && rest == c2,
                        },
                ResolveGuard::Respond(x) => r == Action::Respond(x) && rest == c1,
                ResolveGuard::Fail(e) => r == Action::Fail(e) && rest == c1,
            }
    }

    /// Resolves the parameters in order, then calls the function; the first parameter that
    /// does not resolve to a value decides the action instead.
    fn run(self, ctx: &RequestState<C>, captures: &mut Captures) -> (r: Action) {
        let (step, _) = resolve_param::<C, P1>(ctx, captures);
        let p1 = match step {
            Ok(v) => v,
            Err(a) => return a,
        };
        let (step, _) = resolve_param::<C, P2>(ctx, captures);
        let p2 = match step {
            Ok(v) => v,
            Err(a) => return a,
        };
        let (step, _) = resolve_param::<C, P3>(ctx, captures);
        let p3 = match step {
            Ok(v) => v,
            Err(a) => return a,
        };
        let (step, _) = resolve_param::<C, P4>(ctx, captures);
        let p4 = match step {
            Ok(v) => v,
            Err(a) => return a,
        };
        let (step, _) = resolve_param::<C, P5>(ctx, captures);
        let p5 = match step {
            Ok(v) => v,
            Err(a) => return a,
        };
        let (step, _) = resolve_param::<C, P6>(ctx, captures);
        let p6 = match step {
            Ok(v) => v,
            Err(a) => return a,
        };
        let (step, _) = resolve_param::<C, P7>(ctx, captures);
        let p7 = match step {
            Ok(v) => v,
            Err(a) => return a,
        };
        let (step, _) = resolve_param::<C, P8>(ctx, captures);
        let p8 = match step {
            Ok(v) => v,
            Err(a) => return a,
        };
        let (step, _) = resolve_param::<C, P9>(ctx, captures);
        let p9 = match step {
            Ok(v) => v,
            Err(a) => return a,
        };
        let (step, _) = resolve_param::<C, P10>(ctx, captures);
        let p10 = match step {
            Ok(v) => v,
            Err(a) => return a,
        };
        let (step, _) = resolve_param::<C, P11>(ctx, captures);
        let p11 = match step {
            Ok(v) => v,
            Err(a) => return a,
        };
        let (step, _) = resolve_param::<C, P12>(ctx, captures);
        let p12 = match step {
            Ok(v) => v,
            Err(a) => return a,
        };
        let (step, _) = resolve_param::<C, P13>(ctx, captures);
        let p13 = match step {
            Ok(v) => v,
            Err(a) => return a,
        };
        let (step, _) = resolve_param::<C, P14>(ctx, captures);
        let p14 = match step {
            Ok(v) => v,
            Err(a) => return a,
        };
        let (step, _) = resolve_param::<C, P15>(ctx, captures);
        let p15 = match step {
            Ok(v) => v,
            Err(a) => return a,
        };
        let (step, _) = resolve_param::<C, P16>(ctx, captures);
        let p16 = match step {
            Ok(v) => v,
            Err(a) => return a,
        };
        let ret = self(p1, p2, p3, p4, p5, p6, p7, p8, p9, p10, p11, p12, p13, p14, p15, p16);
        ret.action()
    }
}

impl<C, Ret: IntoAction, P1: Resolve<C>, P2: Resolve<C>, P3: Resolve<C>, P4: Resolve<C>, P5: Resolve<C>, P6: Resolve<C>, P7: Resolve<C>, P8: Resolve<C>, P9: Resolve<C>, P10: Resolve<C>, P11: Resolve<C>, P12: Resolve<C>, P13: Resolve<C>, P14: Resolve<C>, P15: Resolve<C>, P16: Resolve<C>, P17: Resolve<C>, Func: Fn(P1, P2, P3, P4, P5, P6, P7, P8, P9, P10, P11, P12, P13, P14, P15, P16, P17) -> Ret> System<C, (Ret, P1, P2, P3, P4, P5, P6, P7, P8, P9, P10, P11, P12, P13, P14, P15, P16, P17)> for Func {
    open spec fn run_ok(&self) -> bool {
        &&& forall|p1: P1, p2: P2, p3: P3, p4: P4, p5: P5, p6: P6, p7: P7, p8: P8, p9: P9, p10: P10, p11: P11, p12: P12, p13: P13, p14: P14, p15: P15, p16: P16, p17: P17| #[trigger] call_requires(*self, (p1, p2, p3, p4, p5, p6, p7, p8, p9, p10, p11, p12, p13, p14, p15, p16, p17))
        &&& forall|p1: P1, p2: P2, p3: P3, p4: P4, p5: P5, p6: P6, p7: P7, p8: P8, p9: P9, p10: P10, p11: P11, p12: P12, p13: P13, p14: P14, p15: P15, p16: P16, p17: P17, ret: Ret| #[trigger] call_ensures(*self, (p1, p2, p3, p4, p5, p6, p7, p8, p9, p10, p11, p12, p13, p14, p15, p16, p17), ret) ==> ret.action_ok()
    }

    open spec fn runs(&self, ctx: &RequestState<C>, captures: Seq<String>, r: Action, rest: Seq<String>) -> bool {
        exists|g1: ResolveGuard<P1>, c1: Seq<String>|
            #[trigger] P1::resolves(ctx, captures, g1, c1) && match g1 {
                ResolveGuard::Value(p1) =>
                    exists|g2: ResolveGuard<P2>, c2: Seq<String>|
                        #[trigger] P2::resolves(ctx, c1, g2, c2) && match g2 {
                            ResolveGuard::Value(p2) =>
                                exists|g3: ResolveGuard<P3>, c3: Seq<String>|
                                    #[trigger] P3::resolves(ctx, c2, g3, c3) && match g3 {
                                        ResolveGuard::Value(p3) =>
                                            exists|g4: ResolveGuard<P4>, c4: Seq<String>|
                                                #[trigger] P4::resolves(ctx, c3, g4, c4) && match g4 {
                                                    ResolveGuard::Value(p4) =>
                                                        exists|g5: ResolveGuard<P5>, c5: Seq<String>|
                                                            #[trigger] P5::resolves(ctx, c4, g5, c5) && match g5 {
                                                                ResolveGuard::Value(p5) =>
                                                                    exists|g6: ResolveGuard<P6>, c6: Seq<String>|
                                                                        #[trigger] P6::resolves(ctx, c5, g6, c6) && match g6 {
                                                                            ResolveGuard::Value(p6) =>
                                                                                exists|g7: ResolveGuard<P7>, c7: Seq<String>|
                                                                                    #[trigger] P7::resolves(ctx, c6, g7, c7) && match g7 {
                                                                                        ResolveGuard::Value(p7) =>
                                                                                            exists|g8: ResolveGuard<P8>, c8: Seq<String>|
                                                                                                #[trigger] P8::resolves(ctx, c7, g8, c8) && match g8 {
                                                                                                    ResolveGuard::Value(p8) =>
                                                                                                        exists|g9: ResolveGuard<P9>, c9: Seq<String>|
                                                                                                            #[trigger] P9::resolves(ctx, c8, g9, c9) && match g9 {
                                                                                                                ResolveGuard::Value(p9) =>
                                                                                                                    exists|g10: ResolveGuard<P10>, c10: Seq<String>|
                                                                                                                        #[trigger] P10::resolves(ctx, c9, g10, c10) && match g10 {
                                                                                                                            ResolveGuard::Value(p10) =>
                                                                                                                                exists|g11: ResolveGuard<P11>, c11: Seq<String>|
                                                                                                                                    #[trigger] P11::resolves(ctx, c10, g11, c11) && match g11 {
                                                                                                                                        ResolveGuard::Value(p11) =>
                                                                                                                                            exists|g12: ResolveGuard<P12>, c12: Seq<String>|
                                                                                                                                                #[trigger] P12::resolves(ctx, c11, g12, c12) && match g12 {
                                                                                                                                                    ResolveGuard::Value(p12) =>
                                                                                                                                                        exists|g13: ResolveGuard<P13>, c13: Seq<String>|
                                                                                                                                                            #[trigger] P13::resolves(ctx, c12, g13, c13) && match g13 {
                                                                                                                                                                ResolveGuard::Value(p13) =>
                                                                                                                                                                    exists|g14: ResolveGuard<P14>, c14: Seq<String>|
                                                                                                                                                                        #[trigger] P14::resolves(ctx, c13, g14, c14) && match g14 {
                                                                                                                                                                            ResolveGuard::Value(p14) =>
                                                                                                                                                                                exists|g15: ResolveGuard<P15>, c15: Seq<String>|
                                                                                                                                                                                    #[trigger] P15::resolves(ctx, c14, g15, c15) && match g15 {
                                                                                                                                                                                        ResolveGuard::Value(p15) =>
                                                                                                                                                                                            exists|g16: ResolveGuard<P16>, c16: Seq<String>|
                                                                                                                                                                                                #[trigger] P16::resolves(ctx, c15, g16, c16) && match g16 {
                                                                                                                                                                                                    ResolveGuard::Value(p16) =>
                                                                                                                                                                                                        exists|g17: ResolveGuard<P17>, c17: Seq<String>|
                                                                                                                                                                                                            #[trigger] P17::resolves(ctx, c16, g17, c17) && match g17 {
                                                                                                                                                                                                                ResolveGuard::Value(p17) =>
                                                                                                                                                                                                                    exists|ret: Ret| #[trigger] call_ensures(*self, (p1, p2, p3, p4, p5, p6, p7, p8, p9, p10, p11, p12, p13, p14, p15, p16, p17), ret) && ret.acts_as(r) && rest == c17,
                                                                                                                                                                                                                ResolveGuard::Respond(x) => r == Action::Respond(x) && rest == c17,
                                                                                                                                                                                                                ResolveGuard::Fail(e) => r == Action::Fail(e) && rest == c17,
                                                                                                                                                                                                            },
                                                                                                                                                                                                    ResolveGuard::Respond(x) => r == Action::Respond(x) && rest == c16,
                                                                                                                                                                                                    ResolveGuard::Fail(e) => r == Action::Fail(e) && rest == c16,
                                                                                                                                                                                                },
                                                                                                                                                                                        ResolveGuard::Respond(x) => r == Action::Respond(x) && rest == c15,
                                                                                                                                                                                        ResolveGuard::Fail(e) => r == Action::Fail(e) && rest == c15,
                                                                                                                                                                                    },
                                                                                                                                                                            ResolveGuard::Respond(x) => r == Action::Respond(x) && rest == c14,
                                                                                                                                                                            ResolveGuard::Fail(e) => r == Action::Fail(e) && rest == c14,
                                                                                                                                                                        },
                                                                                                                                                                ResolveGuard::Respond(x) => r == Action::Respond(x) && rest == c13,
                                                                                                                                                                ResolveGuard::Fail(e) => r == Action::Fail(e) && rest == c13,
                                                                                                                                                            },
                                                                                                                                                    ResolveGuard::Respond(x) => r == Action::Respond(x) && rest == c12,
                                                                                                                                                    ResolveGuard::Fail(e) => r == Action::Fail(e) && rest == c12,
                                                                                                                                                },
                                                                                                                                        ResolveGuard::Respond(x) => r == Action::Respond(x) && rest == c11,
                                                                                                                                        ResolveGuard::Fail(e) => r == Action::Fail(e) && rest == c11,
                                                                                                                                    },
                                                                                                                            ResolveGuard::Respond(x) => r == Action::Respond(x) && rest == c10,
                                                                                                                            ResolveGuard::Fail(e) => r == Action::Fail(e) && rest == c10,
                                                                                                                        },
                                                                                                                ResolveGuard::Respond(x) => r == Action::Respond(x) && rest == c9,
                                                                                                                ResolveGuard::Fail(e) => r == Action::Fail(e) && rest == c9,
                                                                                                            },
                                                                                                    ResolveGuard::Respond(x) => r == Action::Respond(x) && rest == c8,
                                                                                                    ResolveGuard::Fail(e) => r == Action::Fail(e) && rest == c8,
                                                                                                },
                                                                                        ResolveGuard::Respond(x) => r == Action::Respond(x) && rest == c7,
                                                                                        ResolveGuard::Fail(e) => r == Action::Fail(e) && rest == c7,
                                                                                    },
                                                                            ResolveGuard::Respond(x) => r == Action::Respond(x) && rest == c6,
                                                                            ResolveGuard::Fail(e) => r == Action::Fail(e) && rest == c6,
                                                                        },
                                                                ResolveGuard::Respond(x) => r == Action::Respond(x) && rest == c5,
                                                                ResolveGuard::Fail(e) => r == Action::Fail(e) && rest == c5,
                                                            },
                                                    ResolveGuard::Respond(x) => r == Action::Respond(x) && rest == c4,
                                                    ResolveGuard::Fail(e) => r == Action::Fail(e) && rest == c4,
                                                },
                                        ResolveGuard::Respond(x) => r == Action::Respond(x) && rest == c3,
                                        ResolveGuard::Fail(e) => r == Action::Fail(e) && rest == c3,
                                    },
                            ResolveGuard::Respond(x) => r == Action::Respond(x) && rest == c2,
                            ResolveGuard::Fail(e) => r == Action::Fail(e) && rest == c2,
                        },
                ResolveGuard::Respond(x) => r == Action::Respond(x) && rest == c1,
                ResolveGuard::Fail(e) => r == Action::Fail(e) && rest == c1,
            }
    }

    /// Resolves the parameters in order, then calls the function; the first parameter that
    /// does not resolve to a value decides the action instead.
    fn run(self, ctx: &RequestState<C>, captures: &mut Captures) -> (r: Action) {
        let (step, _) = resolve_param::<C, P1>(ctx, captures);
        let p1 = match step {
            Ok(v) => v,
            Err(a) => return a,
        };
        let (step, _) = resolve_param::<C, P2>(ctx, captures);
        let p2 = match step {
            Ok(v) => v,
            Err(a) => return a,
        };
        let (step, _) = resolve_param::<C, P3>(ctx, captures);
        let p3 = match step {
            Ok(v) => v,
            Err(a) => return a,
        };
        let (step, _) = resolve_param::<C, P4>(ctx, captures);
        let p4 = match step {
            Ok(v) => v,
            Err(a) => return a,
        };
        let (step, _) = resolve_param::<C, P5>(ctx, captures);
        let p5 = match step {
            Ok(v) => v,
            Err(a) => return a,
        };
        let (step, _) = resolve_param::<C, P6>(ctx, captures);
        let p6 = match step {
            Ok(v) => v,
            Err(a) => return a,
        };
        let (step, _) = resolve_param::<C, P7>(ctx, captures);
        let p7 = match step {
            Ok(v) => v,
            Err(a) => return a,
        };
        let (step, _) = resolve_param::<C, P8>(ctx, captures);
        let p8 = match step {
            Ok(v) => v,
            Err(a) => return a,
        };
        let (step, _) = resolve_param::<C, P9>(ctx, captures);
        let p9 = match step {
            Ok(v) => v,
            Err(a) => return a,
        };
        let (step, _) = resolve_param::<C, P10>(ctx, captures);
        let p10 = match step {
            Ok(v) => v,
            Err(a) => return a,
        };
        let (step, _) = resolve_param::<C, P11>(ctx, captures);
        let p11 = match step {
            Ok(v) => v,
            Err(a) => return a,
        };
        let (step, _) = resolve_param::<C, P12>(ctx, captures);
        let p12 = match step {
            Ok(v) => v,
            Err(a) => return a,
        };
        let (step, _) = resolve_param::<C, P13>(ctx, captures);
        let p13 = match step {
            Ok(v) => v,
            Err(a) => return a,
        };
        let (step, _) = resolve_param::<C, P14>(ctx, captures);
        let p14 = match step {
            Ok(v) => v,
            Err(a) => return a,
        };
        let (step, _) = resolve_param::<C, P15>(ctx, captures);
        let p15 = match step {
            Ok(v) => v,
            Err(a) => return a,
        };
        let (step, _) = resolve_param::<C, P16>(ctx, captures);
        let p16 = match step {
            Ok(v) => v,
            Err(a) => return a,
        };
        let (step, _) = resolve_param::<C, P17>(ctx, captures);
        let p17 = match step {
            Ok(v) => v,
            Err(a) => return a,
        };
        let ret = self(p1, p2, p3, p4, p5, p6, p7, p8, p9, p10, p11, p12, p13, p14, p15, p16, p17);
        ret.action()
    }
}

impl<C, Ret: IntoAction, P1: Resolve<C>, P2: Resolve<C>, P3: Resolve<C>, P4: Resolve<C>, P5: Resolve<C>, P6: Resolve<C>, P7: Resolve<C>, P8: Resolve<C>, P9: Resolve<C>, P10: Resolve<C>, P11: Resolve<C>, P12: Resolve<C>, P13: Resolve<C>, P14: Resolve<C>, P15: Resolve<C>, P16: Resolve<C>, P17: Resolve<C>, P18: Resolve<C>, Func: Fn(P1, P2, P3, P4, P5, P6, P7, P8, P9, P10, P11, P12, P13, P14, P15, P16, P17, P18) -> Ret> System<C, (Ret, P1, P2, P3, P4, P5, P6, P7, P8, P9, P10, P11, P12, P13, P14, P15, P16, P17, P18)> for Func {
    open spec fn run_ok(&self) -> bool {
        &&& forall|p1: P1, p2: P2, p3: P3, p4: P4, p5: P5, p6: P6, p7: P7, p8: P8, p9: P9, p10: P10, p11: P11, p12: P12, p13: P13, p14: P14, p15: P15, p16: P16, p17: P17, p18: P18| #[trigger] call_requires(*self, (p1, p2, p3, p4, p5, p6, p7, p8, p9, p10, p11, p12, p13, p14, p15, p16, p17, p18))
        &&& forall|p1: P1, p2: P2, p3: P3, p4: P4, p5: P5, p6: P6, p7: P7, p8: P8, p9: P9, p10: P10, p11: P11, p12: P12, p13: P13, p14: P14, p15: P15, p16: P16, p17: P17, p18: P18, ret: Ret| #[trigger] call_ensures(*self, (p1, p2, p3, p4, p5, p6, p7, p8, p9, p10, p11, p12, p13, p14, p15, p16, p17, p18), ret) ==> ret.action_ok()
    }

    open spec fn runs(&self, ctx: &RequestState<C>, captures: Seq<String>, r: Action, rest: Seq<String>) -> bool {
        exists|g1: ResolveGuard<P1>, c1: Seq<String>|
            #[trigger] P1::resolves(ctx, captures, g1, c1) && match g1 {
                ResolveGuard::Value(p1) =>
                    exists|g2: ResolveGuard<P2>, c2: Seq<String>|
                        #[trigger] P2::resolves(ctx, c1, g2, c2) && match g2 {
                            ResolveGuard::Value(p2) =>
                                exists|g3: ResolveGuard<P3>, c3: Seq<String>|
                                    #[trigger] P3::resolves(ctx, c2, g3, c3) && match g3 {
                                        ResolveGuard::Value(p3) =>
                                            exists|g4: ResolveGuard<P4>, c4: Seq<String>|
                                                #[trigger] P4::resolves(ctx, c3, g4, c4) && match g4 {
                                                    ResolveGuard::Value(p4) =>
                                                        exists|g5: ResolveGuard<P5>, c5: Seq<String>|
                                                            #[trigger] P5::resolves(ctx, c4, g5, c5) && match g5 {
                                                                ResolveGuard::Value(p5) =>
                                                                    exists|g6: ResolveGuard<P6>, c6: Seq<String>|
                                                                        #[trigger] P6::resolves(ctx, c5, g6, c6) && match g6 {
                                                                            ResolveGuard::Value(p6) =>
                                                                                exists|g7: ResolveGuard<P7>, c7: Seq<String>|
                                                                                    #[trigger] P7::resolves(ctx, c6, g7, c7) && match g7 {
                                                                                        ResolveGuard::Value(p7) =>
                                                                                            exists|g8: ResolveGuard<P8>, c8: Seq<String>|
                                                                                                #[trigger] P8::resolves(ctx, c7, g8, c8) && match g8 {
                                                                                                    ResolveGuard::Value(p8) =>
                                                                                                        exists|g9: ResolveGuard<P9>, c9: Seq<String>|
                                                                                                            #[trigger] P9::resolves(ctx, c8, g9, c9) && match g9 {
                                                                                                                ResolveGuard::Value(p9) =>
                                                                                                                    exists|g10: ResolveGuard<P10>, c10: Seq<String>|
                                                                                                                        #[trigger] P10::resolves(ctx, c9, g10, c10) && match g10 {
                                                                                                                            ResolveGuard::Value(p10) =>
                                                                                                                                exists|g11: ResolveGuard<P11>, c11: Seq<String>|
                                                                                                                                    #[trigger] P11::resolves(ctx, c10, g11, c11) && match g11 {
                                                                                                                                        ResolveGuard::Value(p11) =>
                                                                                                                                            exists|g12: ResolveGuard<P12>, c12: Seq<String>|
                                                                                                                                                #[trigger] P12::resolves(ctx, c11, g12, c12) && match g12 {
                                                                                                                                                    ResolveGuard::Value(p12) =>
                                                                                                                                                        exists|g13: ResolveGuard<P13>, c13: Seq<String>|
                                                                                                                                                            #[trigger] P13::resolves(ctx, c12, g13, c13) && match g13 {
                                                                                                                                                                ResolveGuard::Value(p13) =>
                                                                                                                                                                    exists|g14: ResolveGuard<P14>, c14: Seq<String>|
                                                                                                                                                                        #[trigger] P14::resolves(ctx, c13, g14, c14) && match g14 {
                                                                                                                                                                            ResolveGuard::Value(p14) =>
                                                                                                                                                                                exists|g15: ResolveGuard<P15>, c15: Seq<String>|
                                                                                                                                                                                    #[trigger] P15::resolves(ctx, c14, g15, c15) && match g15 {
                                                                                                                                                                                        ResolveGuard::Value(p15) =>
                                                                                                                                                                                            exists|g16: ResolveGuard<P16>, c16: Seq<String>|
                                                                                                                                                                                                #[trigger] P16::resolves(ctx, c15, g16, c16) && match g16 {
                                                                                                                                                                                                    ResolveGuard::Value(p16) =>
                                                                                                                                                                                                        exists|g17: ResolveGuard<P17>, c17: Seq<String>|
                                                                                                                                                                                                            #[trigger] P17::resolves(ctx, c16, g17, c17) && match g17 {
                                                                                                                                                                                                                ResolveGuard::Value(p17) =>
                                                                                                                                                                                                                    exists|g18: ResolveGuard<P18>, c18: Seq<String>|
                                                                                                                                                                                                                        #[trigger] P18::resolves(ctx, c17, g18, c18) && match g18 {
                                                                                                                                                                                                                            ResolveGuard::Value(p18) =>
                                                                                                                                                                                                                                exists|ret: Ret| #[trigger] call_ensures(*self, (p1, p2, p3, p4, p5, p6, p7, p8, p9, p10, p11, p12, p13, p14, p15, p16, p17, p18), ret) && ret.acts_as(r) && rest == c18,
                                                                                                                                                                                                                            ResolveGuard::Respond(x) => r == Action::Respond(x) && rest == c18,
                                                                                                                                                                                                                            ResolveGuard::Fail(e) => r == Action::Fail(e) && rest == c18,
                                                                                                                                                                                                                        },
                                                                                                                                                                                                                ResolveGuard::Respond(x) => r == Action::Respond(x) && rest == c17,
                                                                                                                                                                                                                ResolveGuard::Fail(e) => r == Action::Fail(e) && rest == c17,
                                                                                                                                                                                                            },
                                                                                                                                                                                                    ResolveGuard::Respond(x) => r == Action::Respond(x) && rest == c16,
                                                                                                                                                                                                    ResolveGuard::Fail(e) => r == Action::Fail(e) && rest == c16,
                                                                                                                                                                                                },
                                                                                                                                                                                        ResolveGuard::Respond(x) => r == Action::Respond(x) && rest == c15,
                                                                                                                                                                                        ResolveGuard::Fail(e) => r == Action::Fail(e) && rest == c15,
                                                                                                                                                                                    },
                                                                                                                                                                            ResolveGuard::Respond(x) => r == Action::Respond(x) && rest == c14,
                                                                                                                                                                            ResolveGuard::Fail(e) => r == Action::Fail(e) && rest == c14,
                                                                                                                                                                        },
                                                                                                                                                                ResolveGuard::Respond(x) => r == Action::Respond(x) && rest == c13,
                                                                                                                                                                ResolveGuard::Fail(e) => r == Action::Fail(e) && rest == c13,
                                                                                                                                                            },
                                                                                                                                                    ResolveGuard::Respond(x) => r == Action::Respond(x) && rest == c12,
                                                                                                                                                    ResolveGuard::Fail(e) => r == Action::Fail(e) && rest == c12,
                                                                                                                                                },
                                                                                                                                        ResolveGuard::Respond(x) => r == Action::Respond(x) && rest == c11,
                                                                                                                                        ResolveGuard::Fail(e) => r == Action::Fail(e) && rest == c11,
                                                                                                                                    },
                                                                                                                            ResolveGuard::Respond(x) => r == Action::Respond(x) && rest == c10,
                                                                                                                            ResolveGuard::Fail(e) => r == Action::Fail(e) && rest == c10,
                                                                                                                        },
                                                                                                                ResolveGuard::Respond(x) => r == Action::Respond(x) && rest == c9,
                                                                                                                ResolveGuard::Fail(e) => r == Action::Fail(e) && rest == c9,
                                                                                                            },
                                                                                                    ResolveGuard::Respond(x) => r == Action::Respond(x) && rest == c8,
                                                                                                    ResolveGuard::Fail(e) => r == Action::Fail(e) && rest == c8,
                                                                                                },
                                                                                        ResolveGuard::Respond(x) => r == Action::Respond(x) && rest == c7,
                                                                                        ResolveGuard::Fail(e) => r == Action::Fail(e) && rest == c7,
                                                                                    },
                                                                            ResolveGuard::Respond(x) => r == Action::Respond(x) && rest == c6,
                                                                            ResolveGuard::Fail(e) => r == Action::Fail(e) && rest == c6,
                                                                        },
                                                                ResolveGuard::Respond(x) => r == Action::Respond(x) && rest == c5,
                                                                ResolveGuard::Fail(e) => r == Action::Fail(e) && rest == c5,
                                                            },
                                                    ResolveGuard::Respond(x) => r == Action::Respond(x) && rest == c4,
                                                    ResolveGuard::Fail(e) => r == Action::Fail(e) && rest == c4,
                                                },
                                        ResolveGuard::Respond(x) => r == Action::Respond(x) && rest == c3,
                                        ResolveGuard::Fail(e) => r == Action::Fail(e) && rest == c3,
                                    },
                            ResolveGuard::Respond(x) => r == Action::Respond(x) && rest == c2,
                            ResolveGuard::Fail(e) => r == Action::Fail(e) && rest == c2,
                        },
                ResolveGuard::Respond(x) => r == Action::Respond(x) && rest == c1,
                ResolveGuard::Fail(e) => r == Action::Fail(e) && rest == c1,
            }
    }

    /// Resolves the parameters in order, then calls the function; the first parameter that
    /// does not resolve to a value decides the action instead.
    fn run(self, ctx: &RequestState<C>, captures: &mut Captures) -> (r: Action) {
        let (step, _) = resolve_param::<C, P1>(ctx, captures);
        let p1 = match step {
            Ok(v) => v,
            Err(a) => return a,
        };
        let (step, _) = resolve_param::<C, P2>(ctx, captures);
        let p2 = match step {
            Ok(v) => v,
            Err(a) => return a,
        };
        let (step, _) = resolve_param::<C, P3>(ctx, captures);
        let p3 = match step {
            Ok(v) => v,
            Err(a) => return a,
        };
        let (step, _) = resolve_param::<C, P4>(ctx, captures);
        let p4 = match step {
            Ok(v) => v,
            Err(a) => return a,
        };
        let (step, _) = resolve_param::<C, P5>(ctx, captures);
        let p5 = match step {
            Ok(v) => v,
            Err(a) => return a,
        };
        let (step, _) = resolve_param::<C, P6>(ctx, captures);
        let p6 = match step {
            Ok(v) => v,
            Err(a) => return a,
        };
        let (step, _) = resolve_param::<C, P7>(ctx, captures);
        let p7 = match step {
            Ok(v) => v,
            Err(a) => return a,
        };
        let (step, _) = resolve_param::<C, P8>(ctx, captures);
        let p8 = match step {
            Ok(v) => v,
            Err(a) => return a,
        };
        let (step, _) = resolve_param::<C, P9>(ctx, captures);
        let p9 = match step {
            Ok(v) => v,
            Err(a) => return a,
        };
        let (step, _) = resolve_param::<C, P10>(ctx, captures);
        let p10 = match step {
            Ok(v) => v,
            Err(a) => return a,
        };
        let (step, _) = resolve_param::<C, P11>(ctx, captures);
        let p11 = match step {
            Ok(v) => v,
            Err(a) => return a,
        };
        let (step, _) = resolve_param::<C, P12>(ctx, captures);
        let p12 = match step {
            Ok(v) => v,
            Err(a) => return a,
        };
        let (step, _) = resolve_param::<C, P13>(ctx, captures);
        let p13 = match step {
            Ok(v) => v,
            Err(a) => return a,
        };
        let (step, _) = resolve_param::<C, P14>(ctx, captures);
        let p14 = match step {
            Ok(v) => v,
            Err(a) => return a,
        };
        let (step, _) = resolve_param::<C, P15>(ctx, captures);
        let p15 = match step {
            Ok(v) => v,
            Err(a) => return a,
        };
        let (step, _) = resolve_param::<C, P16>(ctx, captures);
        let p16 = match step {
            Ok(v) => v,
            Err(a) => return a,
        };
        let (step, _) = resolve_param::<C, P17>(ctx, captures);
        let p17 = match step {
            Ok(v) => v,
            Err(a) => return a,
        };
        let (step, _) = resolve_param::<C, P18>(ctx, captures);
        let p18 = match step {
            Ok(v) => v,
            Err(a) => return a,
        };
        let ret = self(p1, p2, p3, p4, p5, p6, p7, p8, p9, p10, p11, p12, p13, p14, p15, p16, p17, p18);
        ret.action()
    }
}

impl<C, Ret: IntoAction, P1: Resolve<C>, P2: Resolve<C>, P3: Resolve<C>, P4: Resolve<C>, P5: Resolve<C>, P6: Resolve<C>, P7: Resolve<C>, P8: Resolve<C>, P9: Resolve<C>, P10: Resolve<C>, P11: Resolve<C>, P12: Resolve<C>, P13: Resolve<C>, P14: Resolve<C>, P15: Resolve<C>, P16: Resolve<C>, P17: Resolve<C>, P18: Resolve<C>, P19: Resolve<C>, Func: Fn(P1, P2, P3, P4, P5, P6, P7, P8, P9, P10, P11, P12, P13, P14, P15, P16, P17, P18, P19) -> Ret> System<C, (Ret, P1, P2, P3, P4, P5, P6, P7, P8, P9, P10, P11, P12, P13, P14, P15, P16, P17, P18, P19)> for Func {
    open spec fn run_ok(&self) -> bool {
        &&& forall|p1: P1, p2: P2, p3: P3, p4: P4, p5: P5, p6: P6, p7: P7, p8: P8, p9: P9, p10: P10, p11: P11, p12: P12, p13: P13, p14: P14, p15: P15, p16: P16, p17: P17, p18: P18, p19: P19| #[trigger] call_requires(*self, (p1, p2, p3, p4, p5, p6, p7, p8, p9, p10, p11, p12, p13, p14, p15, p16, p17, p18, p19))
        &&& forall|p1: P1, p2: P2, p3: P3, p4: P4, p5: P5, p6: P6, p7: P7, p8: P8, p9: P9, p10: P10, p11: P11, p12: P12, p13: P13, p14: P14, p15: P15, p16: P16, p17: P17, p18: P18, p19: P19, ret: Ret| #[trigger] call_ensures(*self, (p1, p2, p3, p4, p5, p6, p7, p8, p9, p10, p11, p12, p13, p14, p15, p16, p17, p18, p19), ret) ==> ret.action_ok()
    }

    open spec fn runs(&self, ctx: &RequestState<C>, captures: Seq<String>, r: Action, rest: Seq<String>) -> bool {
        exists|g1: ResolveGuard<P1>, c1: Seq<String>|
            #[trigger] P1::resolves(ctx, captures, g1, c1) && match g1 {
                ResolveGuard::Value(p1) =>
                    exists|g2: ResolveGuard<P2>, c2: Seq<String>|
                        #[trigger] P2::resolves(ctx, c1, g2, c2) && match g2 {
                            ResolveGuard::Value(p2) =>
                                exists|g3: ResolveGuard<P3>, c3: Seq<String>|
                                    #[trigger] P3::resolves(ctx, c2, g3, c3) && match g3 {
                                        ResolveGuard::Value(p3) =>
                                            exists|g4: ResolveGuard<P4>, c4: Seq<String>|
                                                #[trigger] P4::resolves(ctx, c3, g4, c4) && match g4 {
                                                    ResolveGuard::Value(p4) =>
                                                        exists|g5: ResolveGuard<P5>, c5: Seq<String>|
                                                            #[trigger] P5::resolves(ctx, c4, g5, c5) && match g5 {
                                                                ResolveGuard::Value(p5) =>
                                                                    exists|g6: ResolveGuard<P6>, c6: Seq<String>|
                                                                        #[trigger] P6::resolves(ctx, c5, g6, c6) && match g6 {
                                                                            ResolveGuard::Value(p6) =>
                                                                                exists|g7: ResolveGuard<P7>, c7: Seq<String>|
                                                                                    #[trigger] P7::resolves(ctx, c6, g7, c7) && match g7 {
                                                                                        ResolveGuard::Value(p7) =>
                                                                                            exists|g8: ResolveGuard<P8>, c8: Seq<String>|
                                                                                                #[trigger] P8::resolves(ctx, c7, g8, c8) && match g8 {
                                                                                                    ResolveGuard::Value(p8) =>
                                                                                                        exists|g9: ResolveGuard<P9>, c9: Seq<String>|
                                                                                                            #[trigger] P9::resolves(ctx, c8, g9, c9) && match g9 {
                                                                                                                ResolveGuard::Value(p9) =>
                                                                                                                    exists|g10: ResolveGuard<P10>, c10: Seq<String>|
                                                                                                                        #[trigger] P10::resolves(ctx, c9, g10, c10) && match g10 {
                                                                                                                            ResolveGuard::Value(p10) =>
                                                                                                                                exists|g11: ResolveGuard<P11>, c11: Seq<String>|
                                                                                                                                    #[trigger] P11::resolves(ctx, c10, g11, c11) && match g11 {
                                                                                                                                        ResolveGuard::Value(p11) =>
                                                                                                                                            exists|g12: ResolveGuard<P12>, c12: Seq<String>|
                                                                                                                                                #[trigger] P12::resolves(ctx, c11, g12, c12) && match g12 {
                                                                                                                                                    ResolveGuard::Value(p12) =>
                                                                                                                                                        exists|g13: ResolveGuard<P13>, c13: Seq<String>|
                                                                                                                                                            #[trigger] P13::resolves(ctx, c12, g13, c13) && match g13 {
                                                                                                                                                                ResolveGuard::Value(p13) =>
                                                                                                                                                                    exists|g14: ResolveGuard<P14>, c14: Seq<String>|
                                                                                                                                                                        #[trigger] P14::resolves(ctx, c13, g14, c14) && match g14 {
                                                                                                                                                                            ResolveGuard::Value(p14) =>
                                                                                                                                                                                exists|g15: ResolveGuard<P15>, c15: Seq<String>|
                                                                                                                                                                                    #[trigger] P15::resolves(ctx, c14, g15, c15) && match g15 {
                                                                                                                                                                                        ResolveGuard::Value(p15) =>
                                                                                                                                                                                            exists|g16: ResolveGuard<P16>, c16: Seq<String>|
                                                                                                                                                                                                #[trigger] P16::resolves(ctx, c15, g16, c16) && match g16 {
                                                                                                                                                                                                    ResolveGuard::Value(p16) =>
                                                                                                                                                                                                        exists|g17: ResolveGuard<P17>, c17: Seq<String>|
                                                                                                                                                                                                            #[trigger] P17::resolves(ctx, c16, g17, c17) && match g17 {
                                                                                                                                                                                                                ResolveGuard::Value(p17) =>
                                                                                                                                                                                                                    exists|g18: ResolveGuard<P18>, c18: Seq<String>|
                                                                                                                                                                                                                        #[trigger] P18::resolves(ctx, c17, g18, c18) && match g18 {
                                                                                                                                                                                                                            ResolveGuard::Value(p18) =>
                                                                                                                                                                                                                                exists|g19: ResolveGuard<P19>, c19: Seq<String>|
                                                                                                                                                                                                                                    #[trigger] P19::resolves(ctx, c18, g19, c19) && match g19 {
                                                                                                                                                                                                                                        ResolveGuard::Value(p19) =>
                                                                                                                                                                                                                                            exists|ret: Ret| #[trigger] call_ensures(*self, (p1, p2, p3, p4, p5, p6, p7, p8, p9, p10, p11, p12, p13, p14, p15, p16, p17, p18, p19), ret) && ret.acts_as(r) && rest == c19,
                                                                                                                                                                                                                                        ResolveGuard::Respond(x) => r == Action::Respond(x) && rest == c19,
                                                                                                                                                                                                                                        ResolveGuard::Fail(e) => r == Action::Fail(e) && rest == c19,
                                                                                                                                                                                                                                    },
                                                                                                                                                                                                                            ResolveGuard::Respond(x) => r == Action::Respond(x) && rest == c18,
                                                                                                                                                                                                                            ResolveGuard::Fail(e) => r == Action::Fail(e) && rest == c18,
                                                                                                                                                                                                                        },
                                                                                                                                                                                                                ResolveGuard::Respond(x) => r == Action::Respond(x) && rest == c17,
                                                                                                                                                                                                                ResolveGuard::Fail(e) => r == Action::Fail(e) && rest == c17,
                                                                                                                                                                                                            },
                                                                                                                                                                                                    ResolveGuard::Respond(x) => r == Action::Respond(x) && rest == c16,
                                                                                                                                                                                                    ResolveGuard::Fail(e) => r == Action::Fail(e) && rest == c16,
                                                                                                                                                                                                },
                                                                                                                                                                                        ResolveGuard::Respond(x) => r == Action::Respond(x) && rest == c15,
                                                                                                                                                                                        ResolveGuard::Fail(e) => r == Action::Fail(e) && rest == c15,
                                                                                                                                                                                    },
                                                                                                                                                                            ResolveGuard::Respond(x) => r == Action::Respond(x) && rest == c14,
                                                                                                                                                                            ResolveGuard::Fail(e) => r == Action::Fail(e) && rest == c14,
                                                                                                                                                                        },
                                                                                                                                                                ResolveGuard::Respond(x) => r == Action::Respond(x) && rest == c13,
                                                                                                                                                                ResolveGuard::Fail(e) => r == Action::Fail(e) && rest == c13,
                                                                                                                                                            },
                                                                                                                                                    ResolveGuard::Respond(x) => r == Action::Respond(x) && rest == c12,
                                                                                                                                                    ResolveGuard::Fail(e) => r == Action::Fail(e) && rest == c12,
                                                                                                                                                },
                                                                                                                                        ResolveGuard::Respond(x) => r == Action::Respond(x) && rest == c11,
                                                                                                                                        ResolveGuard::Fail(e) => r == Action::Fail(e) && rest == c11,
                                                                                                                                    },
                                                                                                                            ResolveGuard::Respond(x) => r == Action::Respond(x) && rest == c10,
                                                                                                                            ResolveGuard::Fail(e) => r == Action::Fail(e) && rest == c10,
                                                                                                                        },
                                                                                                                ResolveGuard::Respond(x) => r == Action::Respond(x) && rest == c9,
                                                                                                                ResolveGuard::Fail(e) => r == Action::Fail(e) && rest == c9,
                                                                                                            },
                                                                                                    ResolveGuard::Respond(x) => r == Action::Respond(x) && rest == c8,
                                                                                                    ResolveGuard::Fail(e) => r == Action::Fail(e) && rest == c8,
                                                                                                },
                                                                                        ResolveGuard::Respond(x) => r == Action::Respond(x) && rest == c7,
                                                                                        ResolveGuard::Fail(e) => r == Action::Fail(e) && rest == c7,
                                                                                    },
                                                                            ResolveGuard::Respond(x) => r == Action::Respond(x) && rest == c6,
                                                                            ResolveGuard::Fail(e) => r == Action::Fail(e) && rest == c6,
                                                                        },
                                                                ResolveGuard::Respond(x) => r == Action::Respond(x) && rest == c5,
                                                                ResolveGuard::Fail(e) => r == Action::Fail(e) && rest == c5,
                                                            },
                                                    ResolveGuard::Respond(x) => r == Action::Respond(x) && rest == c4,
                                                    ResolveGuard::Fail(e) => r == Action::Fail(e) && rest == c4,
                                                },
                                        ResolveGuard::Respond(x) => r == Action::Respond(x) && rest == c3,
                                        ResolveGuard::Fail(e) => r == Action::Fail(e) && rest == c3,
                                    },
                            ResolveGuard::Respond(x) => r == Action::Respond(x) && rest == c2,
                            ResolveGuard::Fail(e) => r == Action::Fail(e) && rest == c2,
                        },
                ResolveGuard::Respond(x) => r == Action::Respond(x) && rest == c1,
                ResolveGuard::Fail(e) => r == Action::Fail(e) && rest == c1,
            }
    }

    /// Resolves the parameters in order, then calls the function; the first parameter that
    /// does not resolve to a value decides the action instead.
    fn run(self, ctx: &RequestState<C>, captures: &mut Captures) -> (r: Action) {
        let (step, _) = resolve_param::<C, P1>(ctx, captures);
        let p1 = match step {
            Ok(v) => v,
            Err(a) => return a,
        };
        let (step, _) = resolve_param::<C, P2>(ctx, captures);
        let p2 = match step {
            Ok(v) => v,
            Err(a) => return a,
        };
        let (step, _) = resolve_param::<C, P3>(ctx, captures);
        let p3 = match step {
            Ok(v) => v,
            Err(a) => return a,
        };
        let (step, _) = resolve_param::<C, P4>(ctx, captures);
        let p4 = match step {
            Ok(v) => v,
            Err(a) => return a,
        };
        let (step, _) = resolve_param::<C, P5>(ctx, captures);
        let p5 = match step {
            Ok(v) => v,
            Err(a) => return a,
        };
        let (step, _) = resolve_param::<C, P6>(ctx, captures);
        let p6 = match step {
            Ok(v) => v,
            Err(a) => return a,
        };
        let (step, _) = resolve_param::<C, P7>(ctx, captures);
        let p7 = match step {
            Ok(v) => v,
            Err(a) => return a,
        };
        let (step, _) = resolve_param::<C, P8>(ctx, captures);
        let p8 = match step {
            Ok(v) => v,
            Err(a) => return a,
        };
        let (step, _) = resolve_param::<C, P9>(ctx, captures);
        let p9 = match step {
            Ok(v) => v,
            Err(a) => return a,
        };
        let (step, _) = resolve_param::<C, P10>(ctx, captures);
        let p10 = match step {
            Ok(v) => v,
            Err(a) => return a,
        };
        let (step, _) = resolve_param::<C, P11>(ctx, captures);
        let p11 = match step {
            Ok(v) => v,
            Err(a) => return a,
        };
        let (step, _) = resolve_param::<C, P12>(ctx, captures);
        let p12 = match step {
            Ok(v) => v,
            Err(a) => return a,
        };
        let (step, _) = resolve_param::<C, P13>(ctx, captures);
        let p13 = match step {
            Ok(v) => v,
            Err(a) => return a,
        };
        let (step, _) = resolve_param::<C, P14>(ctx, captures);
        let p14 = match step {
            Ok(v) => v,
            Err(a) => return a,
        };
        let (step, _) = resolve_param::<C, P15>(ctx, captures);
        let p15 = match step {
            Ok(v) => v,
            Err(a) => return a,
        };
        let (step, _) = resolve_param::<C, P16>(ctx, captures);
        let p16 = match step {
            Ok(v) => v,
            Err(a) => return a,
        };
        let (step, _) = resolve_param::<C, P17>(ctx, captures);
        let p17 = match step {
            Ok(v) => v,
            Err(a) => return a,
        };
        let (step, _) = resolve_param::<C, P18>(ctx, captures);
        let p18 = match step {
            Ok(v) => v,
            Err(a) => return a,
        };
        let (step, _) = resolve_param::<C, P19>(ctx, captures);
        let p19 = match step {
            Ok(v) => v,
            Err(a) => return a,
        };
        let ret = self(p1, p2, p3, p4, p5, p6, p7, p8, p9, p10, p11, p12, p13, p14, p15, p16, p17, p18, p19);
        ret.action()
    }
}

impl<C, Ret: IntoAction, P1: Resolve<C>, P2: Resolve<C>, P3: Resolve<C>, P4: Resolve<C>, P5: Resolve<C>, P6: Resolve<C>, P7: Resolve<C>, P8: Resolve<C>, P9: Resolve<C>, P10: Resolve<C>, P11: Resolve<C>, P12: Resolve<C>, P13: Resolve<C>, P14: Resolve<C>, P15: Resolve<C>, P16: Resolve<C>, P17: Resolve<C>, P18: Resolve<C>, P19: Resolve<C>, P20: Resolve<C>, Func: Fn(P1, P2, P3, P4, P5, P6, P7, P8, P9, P10, P11, P12, P13, P14, P15, P16, P17, P18, P19, P20) -> Ret> System<C, (Ret, P1, P2, P3, P4, P5, P6, P7, P8, P9, P10, P11, P12, P13, P14, P15, P16, P17, P18, P19, P20)> for Func {
    open spec fn run_ok(&self) -> bool {
        &&& forall|p1: P1, p2: P2, p3: P3, p4: P4, p5: P5, p6: P6, p7: P7, p8: P8, p9: P9, p10: P10, p11: P11, p12: P12, p13: P13, p14: P14, p15: P15, p16: P16, p17: P17, p18: P18, p19: P19, p20: P20| #[trigger] call_requires(*self, (p1, p2, p3, p4, p5, p6, p7, p8, p9, p10, p11, p12, p13, p14, p15, p16, p17, p18, p19, p20))
        &&& forall|p1: P1, p2: P2, p3: P3, p4: P4, p5: P5, p6: P6, p7: P7, p8: P8, p9: P9, p10: P10, p11: P11, p12: P12, p13: P13, p14: P14, p15: P15, p16: P16, p17: P17, p18: P18, p19: P19, p20: P20, ret: Ret| #[trigger] call_ensures(*self, (p1, p2, p3, p4, p5, p6, p7, p8, p9, p10, p11, p12, p13, p14, p15, p16, p17, p18, p19, p20), ret) ==> ret.action_ok()
    }

    open spec fn runs(&self, ctx: &RequestState<C>, captures: Seq<String>, r: Action, rest: Seq<String>) -> bool {
        exists|g1: ResolveGuard<P1>, c1: Seq<String>|
            #[trigger] P1::resolves(ctx, captures, g1, c1) && match g1 {
                ResolveGuard::Value(p1) =>
                    exists|g2: ResolveGuard<P2>, c2: Seq<String>|
                        #[trigger] P2::resolves(ctx, c1, g2, c2) && match g2 {
                            ResolveGuard::Value(p2) =>
                                exists|g3: ResolveGuard<P3>, c3: Seq<String>|
                                    #[trigger] P3::resolves(ctx, c2, g3, c3) && match g3 {
                                        ResolveGuard::Value(p3) =>
                                            exists|g4: ResolveGuard<P4>, c4: Seq<String>|
                                                #[trigger] P4::resolves(ctx, c3, g4, c4) && match g4 {
                                                    ResolveGuard::Value(p4) =>
                                                        exists|g5: ResolveGuard<P5>, c5: Seq<String>|
                                                            #[trigger] P5::resolves(ctx, c4, g5, c5) && match g5 {
                                                                ResolveGuard::Value(p5) =>
                                                                    exists|g6: ResolveGuard<P6>, c6: Seq<String>|
                                                                        #[trigger] P6::resolves(ctx, c5, g6, c6) && match g6 {
                                                                            ResolveGuard::Value(p6) =>
                                                                                exists|g7: ResolveGuard<P7>, c7: Seq<String>|
                                                                                    #[trigger] P7::resolves(ctx, c6, g7, c7) && match g7 {
                                                                                        ResolveGuard::Value(p7) =>
                                                                                            exists|g8: ResolveGuard<P8>, c8: Seq<String>|
                                                                                                #[trigger] P8::resolves(ctx, c7, g8, c8) && match g8 {
                                                                                                    ResolveGuard::Value(p8) =>
                                                                                                        exists|g9: ResolveGuard<P9>, c9: Seq<String>|
                                                                                                            #[trigger] P9::resolves(ctx, c8, g9, c9) && match g9 {
                                                                                                                ResolveGuard::Value(p9) =>
                                                                                                                    exists|g10: ResolveGuard<P10>, c10: Seq<String>|
                                                                                                                        #[trigger] P10::resolves(ctx, c9, g10, c10) && match g10 {
                                                                                                                            ResolveGuard::Value(p10) =>
                                                                                                                                exists|g11: ResolveGuard<P11>, c11: Seq<String>|
                                                                                                                                    #[trigger] P11::resolves(ctx, c10, g11, c11) && match g11 {
                                                                                                                                        ResolveGuard::Value(p11) =>
                                                                                                                                            exists|g12: ResolveGuard<P12>, c12: Seq<String>|
                                                                                                                                                #[trigger] P12::resolves(ctx, c11, g12, c12) && match g12 {
                                                                                                                                                    ResolveGuard::Value(p12) =>
                                                                                                                                                        exists|g13: ResolveGuard<P13>, c13: Seq<String>|
                                                                                                                                                            #[trigger] P13::resolves(ctx, c12, g13, c13) && match g13 {
                                                                                                                                                                ResolveGuard::Value(p13) =>
                                                                                                                                                                    exists|g14: ResolveGuard<P14>, c14: Seq<String>|
                                                                                                                                                                        #[trigger] P14::resolves(ctx, c13, g14, c14) && match g14 {
                                                                                                                                                                            ResolveGuard::Value(p14) =>
                                                                                                                                                                                exists|g15: ResolveGuard<P15>, c15: Seq<String>|
                                                                                                                                                                                    #[trigger] P15::resolves(ctx, c14, g15, c15) && match g15 {
                                                                                                                                                                                        ResolveGuard::Value(p15) =>
                                                                                                                                                                                            exists|g16: ResolveGuard<P16>, c16: Seq<String>|
                                                                                                                                                                                                #[trigger] P16::resolves(ctx, c15, g16, c16) && match g16 {
                                                                                                                                                                                                    ResolveGuard::Value(p16) =>
                                                                                                                                                                                                        exists|g17: ResolveGuard<P17>, c17: Seq<String>|
                                                                                                                                                                                                            #[trigger] P17::resolves(ctx, c16, g17, c17) && match g17 {
                                                                                                                                                                                                                ResolveGuard::Value(p17) =>
                                                                                                                                                                                                                    exists|g18: ResolveGuard<P18>, c18: Seq<String>|
                                                                                                                                                                                                                        #[trigger] P18::resolves(ctx, c17, g18, c18) && match g18 {
                                                                                                                                                                                                                            ResolveGuard::Value(p18) =>
                                                                                                                                                                                                                                exists|g19: ResolveGuard<P19>, c19: Seq<String>|
                                                                                                                                                                                                                                    #[trigger] P19::resolves(ctx, c18, g19, c19) && match g19 {
                                                                                                                                                                                                                                        ResolveGuard::Value(p19) =>
                                                                                                                                                                                                                                            exists|g20: ResolveGuard<P20>, c20: Seq<String>|
                                                                                                                                                                                                                                                #[trigger] P20::resolves(ctx, c19, g20, c20) && match g20 {
                                                                                                                                                                                                                                                    ResolveGuard::Value(p20) =>
                                                                                                                                                                                                                                                        exists|ret: Ret| #[trigger] call_ensures(*self, (p1, p2, p3, p4, p5, p6, p7, p8, p9, p10, p11, p12, p13, p14, p15, p16, p17, p18, p19, p20), ret) && ret.acts_as(r) && rest == c20,
                                                                                                                                                                                                                                                    ResolveGuard::Respond(x) => r == Action::Respond(x) && rest == c20,
                                                                                                                                                                                                                                                    ResolveGuard::Fail(e) => r == Action::Fail(e) && rest == c20,
                                                                                                                                                                                                                                                },
                                                                                                                                                                                                                                        ResolveGuard::Respond(x) => r == Action::Respond(x) && rest == c19,
                                                                                                                                                                                                                                        ResolveGuard::Fail(e) => r == Action::Fail(e) && rest == c19,
                                                                                                                                                                                                                                    },
                                                                                                                                                                                                                            ResolveGuard::Respond(x) => r == Action::Respond(x) && rest == c18,
                                                                                                                                                                                                                            ResolveGuard::Fail(e) => r == Action::Fail(e) && rest == c18,
                                                                                                                                                                                                                        },
                                                                                                                                                                                                                ResolveGuard::Respond(x) => r == Action::Respond(x) && rest == c17,
                                                                                                                                                                                                                ResolveGuard::Fail(e) => r == Action::Fail(e) && rest == c17,
                                                                                                                                                                                                            },
                                                                                                                                                                                                    ResolveGuard::Respond(x) => r == Action::Respond(x) && rest == c16,
                                                                                                                                                                                                    ResolveGuard::Fail(e) => r == Action::Fail(e) && rest == c16,
                                                                                                                                                                                                },
                                                                                                                                                                                        ResolveGuard::Respond(x) => r == Action::Respond(x) && rest == c15,
                                                                                                                                                                                        ResolveGuard::Fail(e) => r == Action::Fail(e) && rest == c15,
                                                                                                                                                                                    },
                                                                                                                                                                            ResolveGuard::Respond(x) => r == Action::Respond(x) && rest == c14,
                                                                                                                                                                            ResolveGuard::Fail(e) => r == Action::Fail(e) && rest == c14,
                                                                                                                                                                        },
                                                                                                                                                                ResolveGuard::Respond(x) => r == Action::Respond(x) && rest == c13,
                                                                                                                                                                ResolveGuard::Fail(e) => r == Action::Fail(e) && rest == c13,
                                                                                                                                                            },
                                                                                                                                                    ResolveGuard::Respond(x) => r == Action::Respond(x) && rest == c12,
                                                                                                                                                    ResolveGuard::Fail(e) => r == Action::Fail(e) && rest == c12,
                                                                                                                                                },
                                                                                                                                        ResolveGuard::Respond(x) => r == Action::Respond(x) && rest == c11,
                                                                                                                                        ResolveGuard::Fail(e) => r == Action::Fail(e) && rest == c11,
                                                                                                                                    },
                                                                                                                            ResolveGuard::Respond(x) => r == Action::Respond(x) && rest == c10,
                                                                                                                            ResolveGuard::Fail(e) => r == Action::Fail(e) && rest == c10,
                                                                                                                        },
                                                                                                                ResolveGuard::Respond(x) => r == Action::Respond(x) && rest == c9,
                                                                                                                ResolveGuard::Fail(e) => r == Action::Fail(e) && rest == c9,
                                                                                                            },
                                                                                                    ResolveGuard::Respond(x) => r == Action::Respond(x) && rest == c8,
                                                                                                    ResolveGuard::Fail(e) => r == Action::Fail(e) && rest == c8,
                                                                                                },
                                                                                        ResolveGuard::Respond(x) => r == Action::Respond(x) && rest == c7,
                                                                                        ResolveGuard::Fail(e) => r == Action::Fail(e) && rest == c7,
                                                                                    },
                                                                            ResolveGuard::Respond(x) => r == Action::Respond(x) && rest == c6,
                                                                            ResolveGuard::Fail(e) => r == Action::Fail(e) && rest == c6,
                                                                        },
                                                                ResolveGuard::Respond(x) => r == Action::Respond(x) && rest == c5,
                                                                ResolveGuard::Fail(e) => r == Action::Fail(e) && rest == c5,
                                                            },
                                                    ResolveGuard::Respond(x) => r == Action::Respond(x) && rest == c4,
                                                    ResolveGuard::Fail(e) => r == Action::Fail(e) && rest == c4,
                                                },
                                        ResolveGuard::Respond(x) => r == Action::Respond(x) && rest == c3,
                                        ResolveGuard::Fail(e) => r == Action::Fail(e) && rest == c3,
                                    },
                            ResolveGuard::Respond(x) => r == Action::Respond(x) && rest == c2,
                            ResolveGuard::Fail(e) => r == Action::Fail(e) && rest == c2,
                        },
                ResolveGuard::Respond(x) => r == Action::Respond(x) && rest == c1,
                ResolveGuard::Fail(e) => r == Action::Fail(e) && rest == c1,
            }
    }

    /// Resolves the parameters in order, then calls the function; the first parameter that
    /// does not resolve to a value decides the action instead.
    fn run(self, ctx: &RequestState<C>, captures: &mut Captures) -> (r: Action) {
        let (step, _) = resolve_param::<C, P1>(ctx, captures);
        let p1 = match step {
            Ok(v) => v,
            Err(a) => return a,
        };
        let (step, _) = resolve_param::<C, P2>(ctx, captures);
        let p2 = match step {
            Ok(v) => v,
            Err(a) => return a,
        };
        let (step, _) = resolve_param::<C, P3>(ctx, captures);
        let p3 = match step {
            Ok(v) => v,
            Err(a) => return a,
        };
        let (step, _) = resolve_param::<C, P4>(ctx, captures);
        let p4 = match step {
            Ok(v) => v,
            Err(a) => return a,
        };
        let (step, _) = resolve_param::<C, P5>(ctx, captures);
        let p5 = match step {
            Ok(v) => v,
            Err(a) => return a,
        };
        let (step, _) = resolve_param::<C, P6>(ctx, captures);
        let p6 = match step {
            Ok(v) => v,
            Err(a) => return a,
        };
        let (step, _) = resolve_param::<C, P7>(ctx, captures);
        let p7 = match step {
            Ok(v) => v,
            Err(a) => return a,
        };
        let (step, _) = resolve_param::<C, P8>(ctx, captures);
        let p8 = match step {
            Ok(v) => v,
            Err(a) => return a,
        };
        let (step, _) = resolve_param::<C, P9>(ctx, captures);
        let p9 = match step {
            Ok(v) => v,
            Err(a) => return a,
        };
        let (step, _) = resolve_param::<C, P10>(ctx, captures);
        let p10 = match step {
            Ok(v) => v,
            Err(a) => return a,
        };
        let (step, _) = resolve_param::<C, P11>(ctx, captures);
        let p11 = match step {
            Ok(v) => v,
            Err(a) => return a,
        };
        let (step, _) = resolve_param::<C, P12>(ctx, captures);
        let p12 = match step {
            Ok(v) => v,
            Err(a) => return a,
        };
        let (step, _) = resolve_param::<C, P13>(ctx, captures);
        let p13 = match step {
            Ok(v) => v,
            Err(a) => return a,
        };
        let (step, _) = resolve_param::<C, P14>(ctx, captures);
        let p14 = match step {
            Ok(v) => v,
            Err(a) => return a,
        };
        let (step, _) = resolve_param::<C, P15>(ctx, captures);
        let p15 = match step {
            Ok(v) => v,
            Err(a) => return a,
        };
        let (step, _) = resolve_param::<C, P16>(ctx, captures);
        let p16 = match step {
            Ok(v) => v,
            Err(a) => return a,
        };
        let (step, _) = resolve_param::<C, P17>(ctx, captures);
        let p17 = match step {
            Ok(v) => v,
            Err(a) => return a,
        };
        let (step, _) = resolve_param::<C, P18>(ctx, captures);
        let p18 = match step {
            Ok(v) => v,
            Err(a) => return a,
        };
        let (step, _) = resolve_param::<C, P19>(ctx, captures);
        let p19 = match step {
            Ok(v) => v,
            Err(a) => return a,
        };
        let (step, _) = resolve_param::<C, P20>(ctx, captures);
        let p20 = match step {
            Ok(v) => v,
            Err(a) => return a,
        };
        let ret = self(p1, p2, p3, p4, p5, p6, p7, p8, p9, p10, p11, p12, p13, p14, p15, p16, p17, p18, p19, p20);
        ret.action()
    }
}

impl<C, Ret: IntoAction, P1: Resolve<C>, P2: Resolve<C>, P3: Resolve<C>, P4: Resolve<C>, P5: Resolve<C>, P6: Resolve<C>, P7: Resolve<C>, P8: Resolve<C>, P9: Resolve<C>, P10: Resolve<C>, P11: Resolve<C>, P12: Resolve<C>, P13: Resolve<C>, P14: Resolve<C>, P15: Resolve<C>, P16: Resolve<C>, P17: Resolve<C>, P18: Resolve<C>, P19: Resolve<C>, P20: Resolve<C>, P21: Resolve<C>, Func: Fn(P1, P2, P3, P4, P5, P6, P7, P8, P9, P10, P11, P12, P13, P14, P15, P16, P17, P18, P19, P20, P21) -> Ret> System<C, (Ret, P1, P2, P3, P4, P5, P6, P7, P8, P9, P10, P11, P12, P13, P14, P15, P16, P17, P18, P19, P20, P21)> for Func {
    open spec fn run_ok(&self) -> bool {
        &&& forall|p1: P1, p2: P2, p3: P3, p4: P4, p5: P5, p6: P6, p7: P7, p8: P8, p9: P9, p10: P10, p11: P11, p12: P12, p13: P13, p14: P14, p15: P15, p16: P16, p17: P17, p18: P18, p19: P19, p20: P20, p21: P21| #[trigger] call_requires(*self, (p1, p2, p3, p4, p5, p6, p7, p8, p9, p10, p11, p12, p13, p14, p15, p16, p17, p18, p19, p20, p21))
        &&& forall|p1: P1, p2: P2, p3: P3, p4: P4, p5: P5, p6: P6, p7: P7, p8: P8, p9: P9, p10: P10, p11: P11, p12: P12, p13: P13, p14: P14, p15: P15, p16: P16, p17: P17, p18: P18, p19: P19, p20: P20, p21: P21, ret: Ret| #[trigger] call_ensures(*self, (p1, p2, p3, p4, p5, p6, p7, p8, p9, p10, p11, p12, p13, p14, p15, p16, p17, p18, p19, p20, p21), ret) ==> ret.action_ok()
    }

    open spec fn runs(&self, ctx: &RequestState<C>, captures: Seq<String>, r: Action, rest: Seq<String>) -> bool {
        exists|g1: ResolveGuard<P1>, c1: Seq<String>|
            #[trigger] P1::resolves(ctx, captures, g1, c1) && match g1 {
                ResolveGuard::Value(p1) =>
                    exists|g2: ResolveGuard<P2>, c2: Seq<String>|
                        #[trigger] P2::resolves(ctx, c1, g2, c2) && match g2 {
                            ResolveGuard::Value(p2) =>
                                exists|g3: ResolveGuard<P3>, c3: Seq<String>|
                                    #[trigger] P3::resolves(ctx, c2, g3, c3) && match g3 {
                                        ResolveGuard::Value(p3) =>
                                            exists|g4: ResolveGuard<P4>, c4: Seq<String>|
                                                #[trigger] P4::resolves(ctx, c3, g4, c4) && match g4 {
                                                    ResolveGuard::Value(p4) =>
                                                        exists|g5: ResolveGuard<P5>, c5: Seq<String>|
                                                            #[trigger] P5::resolves(ctx, c4, g5, c5) && match g5 {
                                                                ResolveGuard::Value(p5) =>
                                                                    exists|g6: ResolveGuard<P6>, c6: Seq<String>|
                                                                        #[trigger] P6::resolves(ctx, c5, g6, c6) && match g6 {
                                                                            ResolveGuard::Value(p6) =>
                                                                                exists|g7: ResolveGuard<P7>, c7: Seq<String>|
                                                                                    #[trigger] P7::resolves(ctx, c6, g7, c7) && match g7 {
                                                                                        ResolveGuard::Value(p7) =>
                                                                                            exists|g8: ResolveGuard<P8>, c8: Seq<String>|
                                                                                                #[trigger] P8::resolves(ctx, c7, g8, c8) && match g8 {
                                                                                                    ResolveGuard::Value(p8) =>
                                                                                                        exists|g9: ResolveGuard<P9>, c9: Seq<String>|
                                                                                                            #[trigger] P9::resolves(ctx, c8, g9, c9) && match g9 {
                                                                                                                ResolveGuard::Value(p9) =>
                                                                                                                    exists|g10: ResolveGuard<P10>, c10: Seq<String>|
                                                                                                                        #[trigger] P10::resolves(ctx, c9, g10, c10) && match g10 {
                                                                                                                            ResolveGuard::Value(p10) =>
                                                                                                                                exists|g11: ResolveGuard<P11>, c11: Seq<String>|
                                                                                                                                    #[trigger] P11::resolves(ctx, c10, g11, c11) && match g11 {
                                                                                                                                        ResolveGuard::Value(p11) =>
                                                                                                                                            exists|g12: ResolveGuard<P12>, c12: Seq<String>|
                                                                                                                                                #[trigger] P12::resolves(ctx, c11, g12, c12) && match g12 {
                                                                                                                                                    ResolveGuard::Value(p12) =>
                                                                                                                                                        exists|g13: ResolveGuard<P13>, c13: Seq<String>|
                                                                                                                                                            #[trigger] P13::resolves(ctx, c12, g13, c13) && match g13 {
                                                                                                                                                                ResolveGuard::Value(p13) =>
                                                                                                                                                                    exists|g14: ResolveGuard<P14>, c14: Seq<String>|
                                                                                                                                                                        #[trigger] P14::resolves(ctx, c13, g14, c14) && match g14 {
                                                                                                                                                                            ResolveGuard::Value(p14) =>
                                                                                                                                                                                exists|g15: ResolveGuard<P15>, c15: Seq<String>|
                                                                                                                                                                                    #[trigger] P15::resolves(ctx, c14, g15, c15) && match g15 {
                                                                                                                                                                                        ResolveGuard::Value(p15) =>
                                                                                                                                                                                            exists|g16: ResolveGuard<P16>, c16: Seq<String>|
                                                                                                                                                                                                #[trigger] P16::resolves(ctx, c15, g16, c16) && match g16 {
                                                                                                                                                                                                    ResolveGuard::Value(p16) =>
                                                                                                                                                                                                        exists|g17: ResolveGuard<P17>, c17: Seq<String>|
                                                                                                                                                                                                            #[trigger] P17::resolves(ctx, c16, g17, c17) && match g17 {
                                                                                                                                                                                                                ResolveGuard::Value(p17) =>
                                                                                                                                                                                                                    exists|g18: ResolveGuard<P18>, c18: Seq<String>|
                                                                                                                                                                                                                        #[trigger] P18::resolves(ctx, c17, g18, c18) && match g18 {
                                                                                                                                                                                                                            ResolveGuard::Value(p18) =>
                                                                                                                                                                                                                                exists|g19: ResolveGuard<P19>, c19: Seq<String>|
                                                                                                                                                                                                                                    #[trigger] P19::resolves(ctx, c18, g19, c19) && match g19 {
                                                                                                                                                                                                                                        ResolveGuard::Value(p19) =>
                                                                                                                                                                                                                                            exists|g20: ResolveGuard<P20>, c20: Seq<String>|
                                                                                                                                                                                                                                                #[trigger] P20::resolves(ctx, c19, g20, c20) && match g20 {
                                                                                                                                                                                                                                                    ResolveGuard::Value(p20) =>
                                                                                                                                                                                                                                                        exists|g21: ResolveGuard<P21>, c21: Seq<String>|
                                                                                                                                                                                                                                                            #[trigger] P21::resolves(ctx, c20, g21, c21) && match g21 {
                                                                                                                                                                                                                                                                ResolveGuard::Value(p21) =>
                                                                                                                                                                                                                                                                    exists|ret: Ret| #[trigger] call_ensures(*self, (p1, p2, p3, p4, p5, p6, p7, p8, p9, p10, p11, p12, p13, p14, p15, p16, p17, p18, p19, p20, p21), ret) && ret.acts_as(r) && rest == c21,
                                                                                                                                                                                                                                                                ResolveGuard::Respond(x) => r == Action::Respond(x) && rest == c21,
                                                                                                                                                                                                                                                                ResolveGuard::Fail(e) => r == Action::Fail(e) && rest == c21,
                                                                                                                                                                                                                                                            },
                                                                                                                                                                                                                                                    ResolveGuard::Respond(x) => r == Action::Respond(x) && rest == c20,
                                                                                                                                                                                                                                                    ResolveGuard::Fail(e) => r == Action::Fail(e) && rest == c20,
                                                                                                                                                                                                                                                },
                                                                                                                                                                                                                                        ResolveGuard::Respond(x) => r == Action::Respond(x) && rest == c19,
                                                                                                                                                                                                                                        ResolveGuard::Fail(e) => r == Action::Fail(e) && rest == c19,
                                                                                                                                                                                                                                    },
                                                                                                                                                                                                                            ResolveGuard::Respond(x) => r == Action::Respond(x) && rest == c18,
                                                                                                                                                                                                                            ResolveGuard::Fail(e) => r == Action::Fail(e) && rest == c18,
                                                                                                                                                                                                                        },
                                                                                                                                                                                                                ResolveGuard::Respond(x) => r == Action::Respond(x) && rest == c17,
                                                                                                                                                                                                                ResolveGuard::Fail(e) => r == Action::Fail(e) && rest == c17,
                                                                                                                                                                                                            },
                                                                                                                                                                                                    ResolveGuard::Respond(x) => r == Action::Respond(x) && rest == c16,
                                                                                                                                                                                                    ResolveGuard::Fail(e) => r == Action::Fail(e) && rest == c16,
                                                                                                                                                                                                },
                                                                                                                                                                                        ResolveGuard::Respond(x) => r == Action::Respond(x) && rest == c15,
                                                                                                                                                                                        ResolveGuard::Fail(e) => r == Action::Fail(e) && rest == c15,
                                                                                                                                                                                    },
                                                                                                                                                                            ResolveGuard::Respond(x) => r == Action::Respond(x) && rest == c14,
                                                                                                                                                                            ResolveGuard::Fail(e) => r == Action::Fail(e) && rest == c14,
                                                                                                                                                                        },
                                                                                                                                                                ResolveGuard::Respond(x) => r == Action::Respond(x) && rest == c13,
                                                                                                                                                                ResolveGuard::Fail(e) => r == Action::Fail(e) && rest == c13,
                                                                                                                                                            },
                                                                                                                                                    ResolveGuard::Respond(x) => r == Action::Respond(x) && rest == c12,
                                                                                                                                                    ResolveGuard::Fail(e) => r == Action::Fail(e) && rest == c12,
                                                                                                                                                },
                                                                                                                                        ResolveGuard::Respond(x) => r == Action::Respond(x) && rest == c11,
                                                                                                                                        ResolveGuard::Fail(e) => r == Action::Fail(e) && rest == c11,
                                                                                                                                    },
                                                                                                                            ResolveGuard::Respond(x) => r == Action::Respond(x) && rest == c10,
                                                                                                                            ResolveGuard::Fail(e) => r == Action::Fail(e) && rest == c10,
                                                                                                                        },
                                                                                                                ResolveGuard::Respond(x) => r == Action::Respond(x) && rest == c9,
                                                                                                                ResolveGuard::Fail(e) => r == Action::Fail(e) && rest == c9,
                                                                                                            },
                                                                                                    ResolveGuard::Respond(x) => r == Action::Respond(x) && rest == c8,
                                                                                                    ResolveGuard::Fail(e) => r == Action::Fail(e) && rest == c8,
                                                                                                },
                                                                                        ResolveGuard::Respond(x) => r == Action::Respond(x) && rest == c7,
                                                                                        ResolveGuard::Fail(e) => r == Action::Fail(e) && rest == c7,
                                                                                    },
                                                                            ResolveGuard::Respond(x) => r == Action::Respond(x) && rest == c6,
                                                                            ResolveGuard::Fail(e) => r == Action::Fail(e) && rest == c6,
                                                                        },
                                                                ResolveGuard::Respond(x) => r == Action::Respond(x) && rest == c5,
                                                                ResolveGuard::Fail(e) => r == Action::Fail(e) && rest == c5,
                                                            },
                                                    ResolveGuard::Respond(x) => r == Action::Respond(x) && rest == c4,
                                                    ResolveGuard::Fail(e) => r == Action::Fail(e) && rest == c4,
                                                },
                                        ResolveGuard::Respond(x) => r == Action::Respond(x) && rest == c3,
                                        ResolveGuard::Fail(e) => r == Action::Fail(e) && rest == c3,
                                    },
                            ResolveGuard::Respond(x) => r == Action::Respond(x) && rest == c2,
                            ResolveGuard::Fail(e) => r == Action::Fail(e) && rest == c2,
                        },
                ResolveGuard::Respond(x) => r == Action::Respond(x) && rest == c1,
                ResolveGuard::Fail(e) => r == Action::Fail(e) && rest == c1,
            }
    }

    /// Resolves the parameters in order, then calls the function; the first parameter that
    /// does not resolve to a value decides the action instead.
    fn run(self, ctx: &RequestState<C>, captures: &mut Captures) -> (r: Action) {
        let (step, _) = resolve_param::<C, P1>(ctx, captures);
        let p1 = match step {
            Ok(v) => v,
            Err(a) => return a,
        };
        let (step, _) = resolve_param::<C, P2>(ctx, captures);
        let p2 = match step {
            Ok(v) => v,
            Err(a) => return a,
        };
        let (step, _) = resolve_param::<C, P3>(ctx, captures);
        let p3 = match step {
            Ok(v) => v,
            Err(a) => return a,
        };
        let (step, _) = resolve_param::<C, P4>(ctx, captures);
        let p4 = match step {
            Ok(v) => v,
            Err(a) => return a,
        };
        let (step, _) = resolve_param::<C, P5>(ctx, captures);
        let p5 = match step {
            Ok(v) => v,
            Err(a) => return a,
        };
        let (step, _) = resolve_param::<C, P6>(ctx, captures);
        let p6 = match step {
            Ok(v) => v,
            Err(a) => return a,
        };
        let (step, _) = resolve_param::<C, P7>(ctx, captures);
        let p7 = match step {
            Ok(v) => v,
            Err(a) => return a,
        };
        let (step, _) = resolve_param::<C, P8>(ctx, captures);
        let p8 = match step {
            Ok(v) => v,
            Err(a) => return a,
        };
        let (step, _) = resolve_param::<C, P9>(ctx, captures);
        let p9 = match step {
            Ok(v) => v,
            Err(a) => return a,
        };
        let (step, _) = resolve_param::<C, P10>(ctx, captures);
        let p10 = match step {
            Ok(v) => v,
            Err(a) => return a,
        };
        let (step, _) = resolve_param::<C, P11>(ctx, captures);
        let p11 = match step {
            Ok(v) => v,
            Err(a) => return a,
        };
        let (step, _) = resolve_param::<C, P12>(ctx, captures);
        let p12 = match step {
            Ok(v) => v,
            Err(a) => return a,
        };
        let (step, _) = resolve_param::<C, P13>(ctx, captures);
        let p13 = match step {
            Ok(v) => v,
            Err(a) => return a,
        };
        let (step, _) = resolve_param::<C, P14>(ctx, captures);
        let p14 = match step {
            Ok(v) => v,
            Err(a) => return a,
        };
        let (step, _) = resolve_param::<C, P15>(ctx, captures);
        let p15 = match step {
            Ok(v) => v,
            Err(a) => return a,
        };
        let (step, _) = resolve_param::<C, P16>(ctx, captures);
        let p16 = match step {
            Ok(v) => v,
            Err(a) => return a,
        };
        let (step, _) = resolve_param::<C, P17>(ctx, captures);
        let p17 = match step {
            Ok(v) => v,
            Err(a) => return a,
        };
        let (step, _) = resolve_param::<C, P18>(ctx, captures);
        let p18 = match step {
            Ok(v) => v,
            Err(a) => return a,
        };
        let (step, _) = resolve_param::<C, P19>(ctx, captures);
        let p19 = match step {
            Ok(v) => v,
            Err(a) => return a,
        };
        let (step, _) = resolve_param::<C, P20>(ctx, captures);
        let p20 = match step {
            Ok(v) => v,
            Err(a) => return a,
        };
        let (step, _) = resolve_param::<C, P21>(ctx, captures);
        let p21 = match step {
            Ok(v) => v,
            Err(a) => return a,
        };
        let ret = self(p1, p2, p3, p4, p5, p6, p7, p8, p9, p10, p11, p12, p13, p14, p15, p16, p17, p18, p19, p20, p21);
        ret.action()
    }
}

impl<C, Ret: IntoAction, P1: Resolve<C>, P2: Resolve<C>, P3: Resolve<C>, P4: Resolve<C>, P5: Resolve<C>, P6: Resolve<C>, P7: Resolve<C>, P8: Resolve<C>, P9: Resolve<C>, P10: Resolve<C>, P11: Resolve<C>, P12: Resolve<C>, P13: Resolve<C>, P14: Resolve<C>, P15: Resolve<C>, P16: Resolve<C>, P17: Resolve<C>, P18: Resolve<C>, P19: Resolve<C>, P20: Resolve<C>, P21: Resolve<C>, P22: Resolve<C>, Func: Fn(P1, P2, P3, P4, P5, P6, P7, P8, P9, P10, P11, P12, P13, P14, P15, P16, P17, P18, P19, P20, P21, P22) -> Ret> System<C, (Ret, P1, P2, P3, P4, P5, P6, P7, P8, P9, P10, P11, P12, P13, P14, P15, P16, P17, P18, P19, P20, P21, P22)> for Func {
    open spec fn run_ok(&self) -> bool {
        &&& forall|p1: P1, p2: P2, p3: P3, p4: P4, p5: P5, p6: P6, p7: P7, p8: P8, p9: P9, p10: P10, p11: P11, p12: P12, p13: P13, p14: P14, p15: P15, p16: P16, p17: P17, p18: P18, p19: P19, p20: P20, p21: P21, p22: P22| #[trigger] call_requires(*self, (p1, p2, p3, p4, p5, p6, p7, p8, p9, p10, p11, p12, p13, p14, p15, p16, p17, p18, p19, p20, p21, p22))
        &&& forall|p1: P1, p2: P2, p3: P3, p4: P4, p5: P5, p6: P6, p7: P7, p8: P8, p9: P9, p10: P10, p11: P11, p12: P12, p13: P13, p14: P14, p15: P15, p16: P16, p17: P17, p18: P18, p19: P19, p20: P20, p21: P21, p22: P22, ret: Ret| #[trigger] call_ensures(*self, (p1, p2, p3, p4, p5, p6, p7, p8, p9, p10, p11, p12, p13, p14, p15, p16, p17, p18, p19, p20, p21, p22), ret) ==> ret.action_ok()
    }

    open spec fn runs(&self, ctx: &RequestState<C>, captures: Seq<String>, r: Action, rest: Seq<String>) -> bool {
        exists|g1: ResolveGuard<P1>, c1: Seq<String>|
            #[trigger] P1::resolves(ctx, captures, g1, c1) && match g1 {
                ResolveGuard::Value(p1) =>
                    exists|g2: ResolveGuard<P2>, c2: Seq<String>|
                        #[trigger] P2::resolves(ctx, c1, g2, c2) && match g2 {
                            ResolveGuard::Value(p2) =>
                                exists|g3: ResolveGuard<P3>, c3: Seq<String>|
                                    #[trigger] P3::resolves(ctx, c2, g3, c3) && match g3 {
                                        ResolveGuard::Value(p3) =>
                                            exists|g4: ResolveGuard<P4>, c4: Seq<String>|
                                                #[trigger] P4::resolves(ctx, c3, g4, c4) && match g4 {
                                                    ResolveGuard::Value(p4) =>
                                                        exists|g5: ResolveGuard<P5>, c5: Seq<String>|
                                                            #[trigger] P5::resolves(ctx, c4, g5, c5) && match g5 {
                                                                ResolveGuard::Value(p5) =>
                                                                    exists|g6: ResolveGuard<P6>, c6: Seq<String>|
                                                                        #[trigger] P6::resolves(ctx, c5, g6, c6) && match g6 {
                                                                            ResolveGuard::Value(p6) =>
                                                                                exists|g7: ResolveGuard<P7>, c7: Seq<String>|
                                                                                    #[trigger] P7::resolves(ctx, c6, g7, c7) && match g7 {
                                                                                        ResolveGuard::Value(p7) =>
                                                                                            exists|g8: ResolveGuard<P8>, c8: Seq<String>|
                                                                                                #[trigger] P8::resolves(ctx, c7, g8, c8) && match g8 {
                                                                                                    ResolveGuard::Value(p8) =>
                                                                                                        exists|g9: ResolveGuard<P9>, c9: Seq<String>|
                                                                                                            #[trigger] P9::resolves(ctx, c8, g9, c9) && match g9 {
                                                                                                                ResolveGuard::Value(p9) =>
                                                                                                                    exists|g10: ResolveGuard<P10>, c10: Seq<String>|
                                                                                                                        #[trigger] P10::resolves(ctx, c9, g10, c10) && match g10 {
                                                                                                                            ResolveGuard::Value(p10) =>
                                                                                                                                exists|g11: ResolveGuard<P11>, c11: Seq<String>|
                                                                                                                                    #[trigger] P11::resolves(ctx, c10, g11, c11) && match g11 {
                                                                                                                                        ResolveGuard::Value(p11) =>
                                                                                                                                            exists|g12: ResolveGuard<P12>, c12: Seq<String>|
                                                                                                                                                #[trigger] P12::resolves(ctx, c11, g12, c12) && match g12 {
                                                                                                                                                    ResolveGuard::Value(p12) =>
                                                                                                                                                        exists|g13: ResolveGuard<P13>, c13: Seq<String>|
                                                                                                                                                            #[trigger] P13::resolves(ctx, c12, g13, c13) && match g13 {
                                                                                                                                                                ResolveGuard::Value(p13) =>
                                                                                                                                                                    exists|g14: ResolveGuard<P14>, c14: Seq<String>|
                                                                                                                                                                        #[trigger] P14::resolves(ctx, c13, g14, c14) && match g14 {
                                                                                                                                                                            ResolveGuard::Value(p14) =>
                                                                                                                                                                                exists|g15: ResolveGuard<P15>, c15: Seq<String>|
                                                                                                                                                                                    #[trigger] P15::resolves(ctx, c14, g15, c15) && match g15 {
                                                                                                                                                                                        ResolveGuard::Value(p15) =>
                                                                                                                                                                                            exists|g16: ResolveGuard<P16>, c16: Seq<String>|
                                                                                                                                                                                                #[trigger] P16::resolves(ctx, c15, g16, c16) && match g16 {
                                                                                                                                                                                                    ResolveGuard::Value(p16) =>
                                                                                                                                                                                                        exists|g17: ResolveGuard<P17>, c17: Seq<String>|
                                                                                                                                                                                                            #[trigger] P17::resolves(ctx, c16, g17, c17) && match g17 {
                                                                                                                                                                                                                ResolveGuard::Value(p17) =>
                                                                                                                                                                                                                    exists|g18: ResolveGuard<P18>, c18: Seq<String>|
                                                                                                                                                                                                                        #[trigger] P18::resolves(ctx, c17, g18, c18) && match g18 {
                                                                                                                                                                                                                            ResolveGuard::Value(p18) =>
                                                                                                                                                                                                                                exists|g19: ResolveGuard<P19>, c19: Seq<String>|
                                                                                                                                                                                                                                    #[trigger] P19::resolves(ctx, c18, g19, c19) && match g19 {
                                                                                                                                                                                                                                        ResolveGuard::Value(p19) =>
                                                                                                                                                                                                                                            exists|g20: ResolveGuard<P20>, c20: Seq<String>|
                                                                                                                                                                                                                                                #[trigger] P20::resolves(ctx, c19, g20, c20) && match g20 {
                                                                                                                                                                                                                                                    ResolveGuard::Value(p20) =>
                                                                                                                                                                                                                                                        exists|g21: ResolveGuard<P21>, c21: Seq<String>|
                                                                                                                                                                                                                                                            #[trigger] P21::resolves(ctx, c20, g21, c21) && match g21 {
                                                                                                                                                                                                                                                                ResolveGuard::Value(p21) =>
                                                                                                                                                                                                                                                                    exists|g22: ResolveGuard<P22>, c22: Seq<String>|
                                                                                                                                                                                                                                                                        #[trigger] P22::resolves(ctx, c21, g22, c22) && match g22 {
                                                                                                                                                                                                                                                                            ResolveGuard::Value(p22) =>
                                                                                                                                                                                                                                                                                exists|ret: Ret| #[trigger] call_ensures(*self, (p1, p2, p3, p4, p5, p6, p7, p8, p9, p10, p11, p12, p13, p14, p15, p16, p17, p18, p19, p20, p21, p22), ret) && ret.acts_as(r) && rest == c22,
                                                                                                                                                                                                                                                                            ResolveGuard::Respond(x) => r == Action::Respond(x) && rest == c22,
                                                                                                                                                                                                                                                                            ResolveGuard::Fail(e) => r == Action::Fail(e) && rest == c22,
                                                                                                                                                                                                                                                                        },
                                                                                                                                                                                                                                                                ResolveGuard::Respond(x) => r == Action::Respond(x) && rest == c21,
                                                                                                                                                                                                                                                                ResolveGuard::Fail(e) => r == Action::Fail(e) && rest == c21,
                                                                                                                                                                                                                                                            },
                                                                                                                                                                                                                                                    ResolveGuard::Respond(x) => r == Action::Respond(x) && rest == c20,
                                                                                                                                                                                                                                                    ResolveGuard::Fail(e) => r == Action::Fail(e) && rest == c20,
                                                                                                                                                                                                                                                },
                                                                                                                                                                                                                                        ResolveGuard::Respond(x) => r == Action::Respond(x) && rest == c19,
                                                                                                                                                                                                                                        ResolveGuard::Fail(e) => r == Action::Fail(e) && rest == c19,
                                                                                                                                                                                                                                    },
                                                                                                                                                                                                                            ResolveGuard::Respond(x) => r == Action::Respond(x) && rest == c18,
                                                                                                                                                                                                                            ResolveGuard::Fail(e) => r == Action::Fail(e) && rest == c18,
                                                                                                                                                                                                                        },
                                                                                                                                                                                                                ResolveGuard::Respond(x) => r == Action::Respond(x) && rest == c17,
                                                                                                                                                                                                                ResolveGuard::Fail(e) => r == Action::Fail(e) && rest == c17,
                                                                                                                                                                                                            },
                                                                                                                                                                                                    ResolveGuard::Respond(x) => r == Action::Respond(x) && rest == c16,
                                                                                                                                                                                                    ResolveGuard::Fail(e) => r == Action::Fail(e) && rest == c16,
                                                                                                                                                                                                },
                                                                                                                                                                                        ResolveGuard::Respond(x) => r == Action::Respond(x) && rest == c15,
                                                                                                                                                                                        ResolveGuard::Fail(e) => r == Action::Fail(e) && rest == c15,
                                                                                                                                                                                    },
                                                                                                                                                                            ResolveGuard::Respond(x) => r == Action::Respond(x) && rest == c14,
                                                                                                                                                                            ResolveGuard::Fail(e) => r == Action::Fail(e) && rest == c14,
                                                                                                                                                                        },
                                                                                                                                                                ResolveGuard::Respond(x) => r == Action::Respond(x) && rest == c13,
                                                                                                                                                                ResolveGuard::Fail(e) => r == Action::Fail(e) && rest == c13,
                                                                                                                                                            },
                                                                                                                                                    ResolveGuard::Respond(x) => r == Action::Respond(x) && rest == c12,
                                                                                                                                                    ResolveGuard::Fail(e) => r == Action::Fail(e) && rest == c12,
                                                                                                                                                },
                                                                                                                                        ResolveGuard::Respond(x) => r == Action::Respond(x) && rest == c11,
                                                                                                                                        ResolveGuard::Fail(e) => r == Action::Fail(e) && rest == c11,
                                                                                                                                    },
                                                                                                                            ResolveGuard::Respond(x) => r == Action::Respond(x) && rest == c10,
                                                                                                                            ResolveGuard::Fail(e) => r == Action::Fail(e) && rest == c10,
                                                                                                                        },
                                                                                                                ResolveGuard::Respond(x) => r == Action::Respond(x) && rest == c9,
                                                                                                                ResolveGuard::Fail(e) => r == Action::Fail(e) && rest == c9,
                                                                                                            },
                                                                                                    ResolveGuard::Respond(x) => r == Action::Respond(x) && rest == c8,
                                                                                                    ResolveGuard::Fail(e) => r == Action::Fail(e) && rest == c8,
                                                                                                },
                                                                                        ResolveGuard::Respond(x) => r == Action::Respond(x) && rest == c7,
                                                                                        ResolveGuard::Fail(e) => r == Action::Fail(e) && rest == c7,
                                                                                    },
                                                                            ResolveGuard::Respond(x) => r == Action::Respond(x) && rest == c6,
                                                                            ResolveGuard::Fail(e) => r == Action::Fail(e) && rest == c6,
                                                                        },
                                                                ResolveGuard::Respond(x) => r == Action::Respond(x) && rest == c5,
                                                                ResolveGuard::Fail(e) => r == Action::Fail(e) && rest == c5,
                                                            },
                                                    ResolveGuard::Respond(x) => r == Action::Respond(x) && rest == c4,
                                                    ResolveGuard::Fail(e) => r == Action::Fail(e) && rest == c4,
                                                },
                                        ResolveGuard::Respond(x) => r == Action::Respond(x) && rest == c3,
                                        ResolveGuard::Fail(e) => r == Action::Fail(e) && rest == c3,
                                    },
                            ResolveGuard::Respond(x) => r == Action::Respond(x) && rest == c2,
                            ResolveGuard::Fail(e) => r == Action::Fail(e) && rest == c2,
                        },
                ResolveGuard::Respond(x) => r == Action::Respond(x) && rest == c1,
                ResolveGuard::Fail(e) => r == Action::Fail(e) && rest == c1,
            }
    }

    /// Resolves the parameters in order, then calls the function; the first parameter that
    /// does not resolve to a value decides the action instead.
    fn run(self, ctx: &RequestState<C>, captures: &mut Captures) -> (r: Action) {
        let (step, _) = resolve_param::<C, P1>(ctx, captures);
        let p1 = match step {
            Ok(v) => v,
            Err(a) => return a,
        };
        let (step, _) = resolve_param::<C, P2>(ctx, captures);
        let p2 = match step {
            Ok(v) => v,
            Err(a) => return a,
        };
        let (step, _) = resolve_param::<C, P3>(ctx, captures);
        let p3 = match step {
            Ok(v) => v,
            Err(a) => return a,
        };
        let (step, _) = resolve_param::<C, P4>(ctx, captures);
        let p4 = match step {
            Ok(v) => v,
            Err(a) => return a,
        };
        let (step, _) = resolve_param::<C, P5>(ctx, captures);
        let p5 = match step {
            Ok(v) => v,
            Err(a) => return a,
        };
        let (step, _) = resolve_param::<C, P6>(ctx, captures);
        let p6 = match step {
            Ok(v) => v,
            Err(a) => return a,
        };
        let (step, _) = resolve_param::<C, P7>(ctx, captures);
        let p7 = match step {
            Ok(v) => v,
            Err(a) => return a,
        };
        let (step, _) = resolve_param::<C, P8>(ctx, captures);
        let p8 = match step {
            Ok(v) => v,
            Err(a) => return a,
        };
        let (step, _) = resolve_param::<C, P9>(ctx, captures);
        let p9 = match step {
            Ok(v) => v,
            Err(a) => return a,
        };
        let (step, _) = resolve_param::<C, P10>(ctx, captures);
        let p10 = match step {
            Ok(v) => v,
            Err(a) => return a,
        };
        let (step, _) = resolve_param::<C, P11>(ctx, captures);
        let p11 = match step {
            Ok(v) => v,
            Err(a) => return a,
        };
        let (step, _) = resolve_param::<C, P12>(ctx, captures);
        let p12 = match step {
            Ok(v) => v,
            Err(a) => return a,
        };
        let (step, _) = resolve_param::<C, P13>(ctx, captures);
        let p13 = match step {
            Ok(v) => v,
            Err(a) => return a,
        };
        let (step, _) = resolve_param::<C, P14>(ctx, captures);
        let p14 = match step {
            Ok(v) => v,
            Err(a) => return a,
        };
        let (step, _) = resolve_param::<C, P15>(ctx, captures);
        let p15 = match step {
            Ok(v) => v,
            Err(a) => return a,
        };
        let (step, _) = resolve_param::<C, P16>(ctx, captures);
        let p16 = match step {
            Ok(v) => v,
            Err(a) => return a,
        };
        let (step, _) = resolve_param::<C, P17>(ctx, captures);
        let p17 = match step {
            Ok(v) => v,
            Err(a) => return a,
        };
        let (step, _) = resolve_param::<C, P18>(ctx, captures);
        let p18 = match step {
            Ok(v) => v,
            Err(a) => return a,
        };
        let (step, _) = resolve_param::<C, P19>(ctx, captures);
        let p19 = match step {
            Ok(v) => v,
            Err(a) => return a,
        };
        let (step, _) = resolve_param::<C, P20>(ctx, captures);
        let p20 = match step {
            Ok(v) => v,
            Err(a) => return a,
        };
        let (step, _) = resolve_param::<C, P21>(ctx, captures);
        let p21 = match step {
            Ok(v) => v,
            Err(a) => return a,
        };
        let (step, _) = resolve_param::<C, P22>(ctx, captures);
        let p22 = match step {
            Ok(v) => v,
            Err(a) => return a,
        };
        let ret = self(p1, p2, p3, p4, p5, p6, p7, p8, p9, p10, p11, p12, p13, p14, p15, p16, p17, p18, p19, p20, p21, p22);
        ret.action()
    }
}

impl<C, Ret: IntoAction, P1: Resolve<C>, P2: Resolve<C>, P3: Resolve<C>, P4: Resolve<C>, P5: Resolve<C>, P6: Resolve<C>, P7: Resolve<C>, P8: Resolve<C>, P9: Resolve<C>, P10: Resolve<C>, P11: Resolve<C>, P12: Resolve<C>, P13: Resolve<C>, P14: Resolve<C>, P15: Resolve<C>, P16: Resolve<C>, P17: Resolve<C>, P18: Resolve<C>, P19: Resolve<C>, P20: Resolve<C>, P21: Resolve<C>, P22: Resolve<C>, P23: Resolve<C>, Func: Fn(P1, P2, P3, P4, P5, P6, P7, P8, P9, P10, P11, P12, P13, P14, P15, P16, P17, P18, P19, P20, P21, P22, P23) -> Ret> System<C, (Ret, P1, P2, P3, P4, P5, P6, P7, P8, P9, P10, P11, P12, P13, P14, P15, P16, P17, P18, P19, P20, P21, P22, P23)> for Func {
    open spec fn run_ok(&self) -> bool {
        &&& forall|p1: P1, p2: P2, p3: P3, p4: P4, p5: P5, p6: P6, p7: P7, p8: P8, p9: P9, p10: P10, p11: P11, p12: P12, p13: P13, p14: P14, p15: P15, p16: P16, p17: P17, p18: P18, p19: P19, p20: P20, p21: P21, p22: P22, p23: P23| #[trigger] call_requires(*self, (p1, p2, p3, p4, p5, p6, p7, p8, p9, p10, p11, p12, p13, p14, p15, p16, p17, p18, p19, p20, p21, p22, p23))
        &&& forall|p1: P1, p2: P2, p3: P3, p4: P4, p5: P5, p6: P6, p7: P7, p8: P8, p9: P9, p10: P10, p11: P11, p12: P12, p13: P13, p14: P14, p15: P15, p16: P16, p17: P17, p18: P18, p19: P19, p20: P20, p21: P21, p22: P22, p23: P23, ret: Ret| #[trigger] call_ensures(*self, (p1, p2, p3, p4, p5, p6, p7, p8, p9, p10, p11, p12, p13, p14, p15, p16, p17, p18, p19, p20, p21, p22, p23), ret) ==> ret.action_ok()
    }

    open spec fn runs(&self, ctx: &RequestState<C>, captures: Seq<String>, r: Action, rest: Seq<String>) -> bool {
        exists|g1: ResolveGuard<P1>, c1: Seq<String>|
            #[trigger] P1::resolves(ctx, captures, g1, c1) && match g1 {
                ResolveGuard::Value(p1) =>
                    exists|g2: ResolveGuard<P2>, c2: Seq<String>|
                        #[trigger] P2::resolves(ctx, c1, g2, c2) && match g2 {
                            ResolveGuard::Value(p2) =>
                                exists|g3: ResolveGuard<P3>, c3: Seq<String>|
                                    #[trigger] P3::resolves(ctx, c2, g3, c3) && match g3 {
                                        ResolveGuard::Value(p3) =>
                                            exists|g4: ResolveGuard<P4>, c4: Seq<String>|
                                                #[trigger] P4::resolves(ctx, c3, g4, c4) && match g4 {
                                                    ResolveGuard::Value(p4) =>
                                                        exists|g5: ResolveGuard<P5>, c5: Seq<String>|
                                                            #[trigger] P5::resolves(ctx, c4, g5, c5) && match g5 {
                                                                ResolveGuard::Value(p5) =>
                                                                    exists|g6: ResolveGuard<P6>, c6: Seq<String>|
                                                                        #[trigger] P6::resolves(ctx, c5, g6, c6) && match g6 {
                                                                            ResolveGuard::Value(p6) =>
                                                                                exists|g7: ResolveGuard<P7>, c7: Seq<String>|
                                                                                    #[trigger] P7::resolves(ctx, c6, g7, c7) && match g7 {
                                                                                        ResolveGuard::Value(p7) =>
                                                                                            exists|g8: ResolveGuard<P8>, c8: Seq<String>|
                                                                                                #[trigger] P8::resolves(ctx, c7, g8, c8) && match g8 {
                                                                                                    ResolveGuard::Value(p8) =>
                                                                                                        exists|g9: ResolveGuard<P9>, c9: Seq<String>|
                                                                                                            #[trigger] P9::resolves(ctx, c8, g9, c9) && match g9 {
                                                                                                                ResolveGuard::Value(p9) =>
                                                                                                                    exists|g10: ResolveGuard<P10>, c10: Seq<String>|
                                                                                                                        #[trigger] P10::resolves(ctx, c9, g10, c10) && match g10 {
                                                                                                                            ResolveGuard::Value(p10) =>
                                                                                                                                exists|g11: ResolveGuard<P11>, c11: Seq<String>|
                                                                                                                                    #[trigger] P11::resolves(ctx, c10, g11, c11) && match g11 {
                                                                                                                                        ResolveGuard::Value(p11) =>
                                                                                                                                            exists|g12: ResolveGuard<P12>, c12: Seq<String>|
                                                                                                                                                #[trigger] P12::resolves(ctx, c11, g12, c12) && match g12 {
                                                                                                                                                    ResolveGuard::Value(p12) =>
                                                                                                                                                        exists|g13: ResolveGuard<P13>, c13: Seq<String>|
                                                                                                                                                            #[trigger] P13::resolves(ctx, c12, g13, c13) && match g13 {
                                                                                                                                                                ResolveGuard::Value(p13) =>
                                                                                                                                                                    exists|g14: ResolveGuard<P14>, c14: Seq<String>|
                                                                                                                                                                        #[trigger] P14::resolves(ctx, c13, g14, c14) && match g14 {
                                                                                                                                                                            ResolveGuard::Value(p14) =>
                                                                                                                                                                                exists|g15: ResolveGuard<P15>, c15: Seq<String>|
                                                                                                                                                                                    #[trigger] P15::resolves(ctx, c14, g15, c15) && match g15 {
                                                                                                                                                                                        ResolveGuard::Value(p15) =>
                                                                                                                                                                                            exists|g16: ResolveGuard<P16>, c16: Seq<String>|
                                                                                                                                                                                                #[trigger] P16::resolves(ctx, c15, g16, c16) && match g16 {
                                                                                                                                                                                                    ResolveGuard::Value(p16) =>
                                                                                                                                                                                                        exists|g17: ResolveGuard<P17>, c17: Seq<String>|
                                                                                                                                                                                                            #[trigger] P17::resolves(ctx, c16, g17, c17) && match g17 {
                                                                                                                                                                                                                ResolveGuard::Value(p17) =>
                                                                                                                                                                                                                    exists|g18: ResolveGuard<P18>, c18: Seq<String>|
                                                                                                                                                                                                                        #[trigger] P18::resolves(ctx, c17, g18, c18) && match g18 {
                                                                                                                                                                                                                            ResolveGuard::Value(p18) =>
                                                                                                                                                                                                                                exists|g19: ResolveGuard<P19>, c19: Seq<String>|
                                                                                                                                                                                                                                    #[trigger] P19::resolves(ctx, c18, g19, c19) && match g19 {
                                                                                                                                                                                                                                        ResolveGuard::Value(p19) =>
                                                                                                                                                                                                                                            exists|g20: ResolveGuard<P20>, c20: Seq<String>|
                                                                                                                                                                                                                                                #[trigger] P20::resolves(ctx, c19, g20, c20) && match g20 {
                                                                                                                                                                                                                                                    ResolveGuard::Value(p20) =>
                                                                                                                                                                                                                                                        exists|g21: ResolveGuard<P21>, c21: Seq<String>|
                                                                                                                                                                                                                                                            #[trigger] P21::resolves(ctx, c20, g21, c21) && match g21 {
                                                                                                                                                                                                                                                                ResolveGuard::Value(p21) =>
                                                                                                                                                                                                                                                                    exists|g22: ResolveGuard<P22>, c22: Seq<String>|
                                                                                                                                                                                                                                                                        #[trigger] P22::resolves(ctx, c21, g22, c22) && match g22 {
                                                                                                                                                                                                                                                                            ResolveGuard::Value(p22) =>
                                                                                                                                                                                                                                                                                exists|g23: ResolveGuard<P23>, c23: Seq<String>|
                                                                                                                                                                                                                                                                                    #[trigger] P23::resolves(ctx, c22, g23, c23) && match g23 {
                                                                                                                                                                                                                                                                                        ResolveGuard::Value(p23) =>
                                                                                                                                                                                                                                                                                            exists|ret: Ret| #[trigger] call_ensures(*self, (p1, p2, p3, p4, p5, p6, p7, p8, p9, p10, p11, p12, p13, p14, p15, p16, p17, p18, p19, p20, p21, p22, p23), ret) && ret.acts_as(r) && rest == c23,
                                                                                                                                                                                                                                                                                        ResolveGuard::Respond(x) => r == Action::Respond(x) && rest == c23,
                                                                                                                                                                                                                                                                                        ResolveGuard::Fail(e) => r == Action::Fail(e) && rest == c23,
                                                                                                                                                                                                                                                                                    },
                                                                                                                                                                                                                                                                            ResolveGuard::Respond(x) => r == Action::Respond(x) && rest == c22,
                                                                                                                                                                                                                                                                            ResolveGuard::Fail(e) => r == Action::Fail(e) && rest == c22,
                                                                                                                                                                                                                                                                        },
                                                                                                                                                                                                                                                                ResolveGuard::Respond(x) => r == Action::Respond(x) && rest == c21,
                                                                                                                                                                                                                                                                ResolveGuard::Fail(e) => r == Action::Fail(e) && rest == c21,
                                                                                                                                                                                                                                                            },
                                                                                                                                                                                                                                                    ResolveGuard::Respond(x) => r == Action::Respond(x) && rest == c20,
                                                                                                                                                                                                                                                    ResolveGuard::Fail(e) => r == Action::Fail(e) && rest == c20,
                                                                                                                                                                                                                                                },
                                                                                                                                                                                                                                        ResolveGuard::Respond(x) => r == Action::Respond(x) && rest == c19,
                                                                                                                                                                                                                                        ResolveGuard::Fail(e) => r == Action::Fail(e) && rest == c19,
                                                                                                                                                                                                                                    },
                                                                                                                                                                                                                            ResolveGuard::Respond(x) => r == Action::Respond(x) && rest == c18,
                                                                                                                                                                                                                            ResolveGuard::Fail(e) => r == Action::Fail(e) && rest == c18,
                                                                                                                                                                                                                        },
                                                                                                                                                                                                                ResolveGuard::Respond(x) => r == Action::Respond(x) && rest == c17,
                                                                                                                                                                                                                ResolveGuard::Fail(e) => r == Action::Fail(e) && rest == c17,
                                                                                                                                                                                                            },
                                                                                                                                                                                                    ResolveGuard::Respond(x) => r == Action::Respond(x) && rest == c16,
                                                                                                                                                                                                    ResolveGuard::Fail(e) => r == Action::Fail(e) && rest == c16,
                                                                                                                                                                                                },
                                                                                                                                                                                        ResolveGuard::Respond(x) => r == Action::Respond(x) && rest == c15,
                                                                                                                                                                                        ResolveGuard::Fail(e) => r == Action::Fail(e) && rest == c15,
                                                                                                                                                                                    },
                                                                                                                                                                            ResolveGuard::Respond(x) => r == Action::Respond(x) && rest == c14,
                                                                                                                                                                            ResolveGuard::Fail(e) => r == Action::Fail(e) && rest == c14,
                                                                                                                                                                        },
                                                                                                                                                                ResolveGuard::Respond(x) => r == Action::Respond(x) && rest == c13,
                                                                                                                                                                ResolveGuard::Fail(e) => r == Action::Fail(e) && rest == c13,
                                                                                                                                                            },
                                                                                                                                                    ResolveGuard::Respond(x) => r == Action::Respond(x) && rest == c12,
                                                                                                                                                    ResolveGuard::Fail(e) => r == Action::Fail(e) && rest == c12,
                                                                                                                                                },
                                                                                                                                        ResolveGuard::Respond(x) => r == Action::Respond(x) && rest == c11,
                                                                                                                                        ResolveGuard::Fail(e) => r == Action::Fail(e) && rest == c11,
                                                                                                                                    },
                                                                                                                            ResolveGuard::Respond(x) => r == Action::Respond(x) && rest == c10,
                                                                                                                            ResolveGuard::Fail(e) => r == Action::Fail(e) && rest == c10,
                                                                                                                        },
                                                                                                                ResolveGuard::Respond(x) => r == Action::Respond(x) && rest == c9,
                                                                                                                ResolveGuard::Fail(e) => r == Action::Fail(e) && rest == c9,
                                                                                                            },
                                                                                                    ResolveGuard::Respond(x) => r == Action::Respond(x) && rest == c8,
                                                                                                    ResolveGuard::Fail(e) => r == Action::Fail(e) && rest == c8,
                                                                                                },
                                                                                        ResolveGuard::Respond(x) => r == Action::Respond(x) && rest == c7,
                                                                                        ResolveGuard::Fail(e) => r == Action::Fail(e) && rest == c7,
                                                                                    },
                                                                            ResolveGuard::Respond(x) => r == Action::Respond(x) && rest == c6,
                                                                            ResolveGuard::Fail(e) => r == Action::Fail(e) && rest == c6,
                                                                        },
                                                                ResolveGuard::Respond(x) => r == Action::Respond(x) && rest == c5,
                                                                ResolveGuard::Fail(e) => r == Action::Fail(e) && rest == c5,
                                                            },
                                                    ResolveGuard::Respond(x) => r == Action::Respond(x) && rest == c4,
                                                    ResolveGuard::Fail(e) => r == Action::Fail(e) && rest == c4,
                                                },
                                        ResolveGuard::Respond(x) => r == Action::Respond(x) && rest == c3,
                                        ResolveGuard::Fail(e) => r == Action::Fail(e) && rest == c3,
                                    },
                            ResolveGuard::Respond(x) => r == Action::Respond(x) && rest == c2,
                            ResolveGuard::Fail(e) => r == Action::Fail(e) && rest == c2,
                        },
                ResolveGuard::Respond(x) => r == Action::Respond(x) && rest == c1,
                ResolveGuard::Fail(e) => r == Action::Fail(e) && rest == c1,
            }
    }

    /// Resolves the parameters in order, then calls the function; the first parameter that
    /// does not resolve to a value decides the action instead.
    fn run(self, ctx: &RequestState<C>, captures: &mut Captures) -> (r: Action) {
        let (step, _) = resolve_param::<C, P1>(ctx, captures);
        let p1 = match step {
            Ok(v) => v,
            Err(a) => return a,
        };
        let (step, _) = resolve_param::<C, P2>(ctx, captures);
        let p2 = match step {
            Ok(v) => v,
            Err(a) => return a,
        };
        let (step, _) = resolve_param::<C, P3>(ctx, captures);
        let p3 = match step {
            Ok(v) => v,
            Err(a) => return a,
        };
        let (step, _) = resolve_param::<C, P4>(ctx, captures);
        let p4 = match step {
            Ok(v) => v,
            Err(a) => return a,
        };
        let (step, _) = resolve_param::<C, P5>(ctx, captures);
        let p5 = match step {
            Ok(v) => v,
            Err(a) => return a,
        };
        let (step, _) = resolve_param::<C, P6>(ctx, captures);
        let p6 = match step {
            Ok(v) => v,
            Err(a) => return a,
        };
        let (step, _) = resolve_param::<C, P7>(ctx, captures);
        let p7 = match step {
            Ok(v) => v,
            Err(a) => return a,
        };
        let (step, _) = resolve_param::<C, P8>(ctx, captures);
        let p8 = match step {
            Ok(v) => v,
            Err(a) => return a,
        };
        let (step, _) = resolve_param::<C, P9>(ctx, captures);
        let p9 = match step {
            Ok(v) => v,
            Err(a) => return a,
        };
        let (step, _) = resolve_param::<C, P10>(ctx, captures);
        let p10 = match step {
            Ok(v) => v,
            Err(a) => return a,
        };
        let (step, _) = resolve_param::<C, P11>(ctx, captures);
        let p11 = match step {
            Ok(v) => v,
            Err(a) => return a,
        };
        let (step, _) = resolve_param::<C, P12>(ctx, captures);
        let p12 = match step {
            Ok(v) => v,
            Err(a) => return a,
        };
        let (step, _) = resolve_param::<C, P13>(ctx, captures);
        let p13 = match step {
            Ok(v) => v,
            Err(a) => return a,
        };
        let (step, _) = resolve_param::<C, P14>(ctx, captures);
        let p14 = match step {
            Ok(v) => v,
            Err(a) => return a,
        };
        let (step, _) = resolve_param::<C, P15>(ctx, captures);
        let p15 = match step {
            Ok(v) => v,
            Err(a) => return a,
        };
        let (step, _) = resolve_param::<C, P16>(ctx, captures);
        let p16 = match step {
            Ok(v) => v,
            Err(a) => return a,
        };
        let (step, _) = resolve_param::<C, P17>(ctx, captures);
        let p17 = match step {
            Ok(v) => v,
            Err(a) => return a,
        };
        let (step, _) = resolve_param::<C, P18>(ctx, captures);
        let p18 = match step {
            Ok(v) => v,
            Err(a) => return a,
        };
        let (step, _) = resolve_param::<C, P19>(ctx, captures);
        let p19 = match step {
            Ok(v) => v,
            Err(a) => return a,
        };
        let (step, _) = resolve_param::<C, P20>(ctx, captures);
        let p20 = match step {
            Ok(v) => v,
            Err(a) => return a,
        };
        let (step, _) = resolve_param::<C, P21>(ctx, captures);
        let p21 = match step {
            Ok(v) => v,
            Err(a) => return a,
        };
        let (step, _) = resolve_param::<C, P22>(ctx, captures);
        let p22 = match step {
            Ok(v) => v,
            Err(a) => return a,
        };
        let (step, _) = resolve_param::<C, P23>(ctx, captures);
        let p23 = match step {
            Ok(v) => v,
            Err(a) => return a,
        };
        let ret = self(p1, p2, p3, p4, p5, p6, p7, p8, p9, p10, p11, p12, p13, p14, p15, p16, p17, p18, p19, p20, p21, p22, p23);
        ret.action()
    }
}

impl<C, Ret: IntoAction, P1: Resolve<C>, P2: Resolve<C>, P3: Resolve<C>, P4: Resolve<C>, P5: Resolve<C>, P6: Resolve<C>, P7: Resolve<C>, P8: Resolve<C>, P9: Resolve<C>, P10: Resolve<C>, P11: Resolve<C>, P12: Resolve<C>, P13: Resolve<C>, P14: Resolve<C>, P15: Resolve<C>, P16: Resolve<C>, P17: Resolve<C>, P18: Resolve<C>, P19: Resolve<C>, P20: Resolve<C>, P21: Resolve<C>, P22: Resolve<C>, P23: Resolve<C>, P24: Resolve<C>, Func: Fn(P1, P2, P3, P4, P5, P6, P7, P8, P9, P10, P11, P12, P13, P14, P15, P16, P17, P18, P19, P20, P21, P22, P23, P24) -> Ret> System<C, (Ret, P1, P2, P3, P4, P5, P6, P7, P8, P9, P10, P11, P12, P13, P14, P15, P16, P17, P18, P19, P20, P21, P22, P23, P24)> for Func {
    open spec fn run_ok(&self) -> bool {
        &&& forall|p1: P1, p2: P2, p3: P3, p4: P4, p5: P5, p6: P6, p7: P7, p8: P8, p9: P9, p10: P10, p11: P11, p12: P12, p13: P13, p14: P14, p15: P15, p16: P16, p17: P17, p18: P18, p19: P19, p20: P20, p21: P21, p22: P22, p23: P23, p24: P24| #[trigger] call_requires(*self, (p1, p2, p3, p4, p5, p6, p7, p8, p9, p10, p11, p12, p13, p14, p15, p16, p17, p18, p19, p20, p21, p22, p23, p24))
        &&& forall|p1: P1, p2: P2, p3: P3, p4: P4, p5: P5, p6: P6, p7: P7, p8: P8, p9: P9, p10: P10, p11: P11, p12: P12, p13: P13, p14: P14, p15: P15, p16: P16, p17: P17, p18: P18, p19: P19, p20: P20, p21: P21, p22: P22, p23: P23, p24: P24, ret: Ret| #[trigger] call_ensures(*self, (p1, p2, p3, p4, p5, p6, p7, p8, p9, p10, p11, p12, p13, p14, p15, p16, p17, p18, p19, p20, p21, p22, p23, p24), ret) ==> ret.action_ok()
    }

    open spec fn runs(&self, ctx: &RequestState<C>, captures: Seq<String>, r: Action, rest: Seq<String>) -> bool {
        exists|g1: ResolveGuard<P1>, c1: Seq<String>|
            #[trigger] P1::resolves(ctx, captures, g1, c1) && match g1 {
                ResolveGuard::Value(p1) =>
                    exists|g2: ResolveGuard<P2>, c2: Seq<String>|
                        #[trigger] P2::resolves(ctx, c1, g2, c2) && match g2 {
                            ResolveGuard::Value(p2) =>
                                exists|g3: ResolveGuard<P3>, c3: Seq<String>|
                                    #[trigger] P3::resolves(ctx, c2, g3, c3) && match g3 {
                                        ResolveGuard::Value(p3) =>
                                            exists|g4: ResolveGuard<P4>, c4: Seq<String>|
                                                #[trigger] P4::resolves(ctx, c3, g4, c4) && match g4 {
                                                    ResolveGuard::Value(p4) =>
                                                        exists|g5: ResolveGuard<P5>, c5: Seq<String>|
                                                            #[trigger] P5::resolves(ctx, c4, g5, c5) && match g5 {
                                                                ResolveGuard::Value(p5) =>
                                                                    exists|g6: ResolveGuard<P6>, c6: Seq<String>|
                                                                        #[trigger] P6::resolves(ctx, c5, g6, c6) && match g6 {
                                                                            ResolveGuard::Value(p6) =>
                                                                                exists|g7: ResolveGuard<P7>, c7: Seq<String>|
                                                                                    #[trigger] P7::resolves(ctx, c6, g7, c7) && match g7 {
                                                                                        ResolveGuard::Value(p7) =>
                                                                                            exists|g8: ResolveGuard<P8>, c8: Seq<String>|
                                                                                                #[trigger] P8::resolves(ctx, c7, g8, c8) && match g8 {
                                                                                                    ResolveGuard::Value(p8) =>
                                                                                                        exists|g9: ResolveGuard<P9>, c9: Seq<String>|
                                                                                                            #[trigger] P9::resolves(ctx, c8, g9, c9) && match g9 {
                                                                                                                ResolveGuard::Value(p9) =>
                                                                                                                    exists|g10: ResolveGuard<P10>, c10: Seq<String>|
                                                                                                                        #[trigger] P10::resolves(ctx, c9, g10, c10) && match g10 {
                                                                                                                            ResolveGuard::Value(p10) =>
                                                                                                                                exists|g11: ResolveGuard<P11>, c11: Seq<String>|
                                                                                                                                    #[trigger] P11::resolves(ctx, c10, g11, c11) && match g11 {
                                                                                                                                        ResolveGuard::Value(p11) =>
                                                                                                                                            exists|g12: ResolveGuard<P12>, c12: Seq<String>|
                                                                                                                                                #[trigger] P12::resolves(ctx, c11, g12, c12) && match g12 {
                                                                                                                                                    ResolveGuard::Value(p12) =>
                                                                                                                                                        exists|g13: ResolveGuard<P13>, c13: Seq<String>|
                                                                                                                                                            #[trigger] P13::resolves(ctx, c12, g13, c13) && match g13 {
                                                                                                                                                                ResolveGuard::Value(p13) =>
                                                                                                                                                                    exists|g14: ResolveGuard<P14>, c14: Seq<String>|
                                                                                                                                                                        #[trigger] P14::resolves(ctx, c13, g14, c14) && match g14 {
                                                                                                                                                                            ResolveGuard::Value(p14) =>
                                                                                                                                                                                exists|g15: ResolveGuard<P15>, c15: Seq<String>|
                                                                                                                                                                                    #[trigger] P15::resolves(ctx, c14, g15, c15) && match g15 {
                                                                                                                                                                                        ResolveGuard::Value(p15) =>
                                                                                                                                                                                            exists|g16: ResolveGuard<P16>, c16: Seq<String>|
                                                                                                                                                                                                #[trigger] P16::resolves(ctx, c15, g16, c16) && match g16 {
                                                                                                                                                                                                    ResolveGuard::Value(p16) =>
                                                                                                                                                                                                        exists|g17: ResolveGuard<P17>, c17: Seq<String>|
                                                                                                                                                                                                            #[trigger] P17::resolves(ctx, c16, g17, c17) && match g17 {
                                                                                                                                                                                                                ResolveGuard::Value(p17) =>
                                                                                                                                                                                                                    exists|g18: ResolveGuard<P18>, c18: Seq<String>|
                                                                                                                                                                                                                        #[trigger] P18::resolves(ctx, c17, g18, c18) && match g18 {
                                                                                                                                                                                                                            ResolveGuard::Value(p18) =>
                                                                                                                                                                                                                                exists|g19: ResolveGuard<P19>, c19: Seq<String>|
                                                                                                                                                                                                                                    #[trigger] P19::resolves(ctx, c18, g19, c19) && match g19 {
                                                                                                                                                                                                                                        ResolveGuard::Value(p19) =>
                                                                                                                                                                                                                                            exists|g20: ResolveGuard<P20>, c20: Seq<String>|
                                                                                                                                                                                                                                                #[trigger] P20::resolves(ctx, c19, g20, c20) && match g20 {
                                                                                                                                                                                                                                                    ResolveGuard::Value(p20) =>
                                                                                                                                                                                                                                                        exists|g21: ResolveGuard<P21>, c21: Seq<String>|
                                                                                                                                                                                                                                                            #[trigger] P21::resolves(ctx, c20, g21, c21) && match g21 {
                                                                                                                                                                                                                                                                ResolveGuard::Value(p21) =>
                                                                                                                                                                                                                                                                    exists|g22: ResolveGuard<P22>, c22: Seq<String>|
                                                                                                                                                                                                                                                                        #[trigger] P22::resolves(ctx, c21, g22, c22) && match g22 {
                                                                                                                                                                                                                                                                            ResolveGuard::Value(p22) =>
                                                                                                                                                                                                                                                                                exists|g23: ResolveGuard<P23>, c23: Seq<String>|
                                                                                                                                                                                                                                                                                    #[trigger] P23::resolves(ctx, c22, g23, c23) && match g23 {
                                                                                                                                                                                                                                                                                        ResolveGuard::Value(p23) =>
                                                                                                                                                                                                                                                                                            exists|g24: ResolveGuard<P24>, c24: Seq<String>|
                                                                                                                                                                                                                                                                                                #[trigger] P24::resolves(ctx, c23, g24, c24) && match g24 {
                                                                                                                                                                                                                                                                                                    ResolveGuard::Value(p24) =>
                                                                                                                                                                                                                                                                                                        exists|ret: Ret| #[trigger] call_ensures(*self, (p1, p2, p3, p4, p5, p6, p7, p8, p9, p10, p11, p12, p13, p14, p15, p16, p17, p18, p19, p20, p21, p22, p23, p24), ret) && ret.acts_as(r) && rest == c24,
                                                                                                                                                                                                                                                                                                    ResolveGuard::Respond(x) => r == Action::Respond(x) && rest == c24,
                                                                                                                                                                                                                                                                                                    ResolveGuard::Fail(e) => r == Action::Fail(e) && rest == c24,
                                                                                                                                                                                                                                                                                                },
                                                                                                                                                                                                                                                                                        ResolveGuard::Respond(x) => r == Action::Respond(x) && rest == c23,
                                                                                                                                                                                                                                                                                        ResolveGuard::Fail(e) => r == Action::Fail(e) && rest == c23,
                                                                                                                                                                                                                                                                                    },
                                                                                                                                                                                                                                                                            ResolveGuard::Respond(x) => r == Action::Respond(x) && rest == c22,
                                                                                                                                                                                                                                                                            ResolveGuard::Fail(e) => r == Action::Fail(e) && rest == c22,
                                                                                                                                                                                                                                                                        },
                                                                                                                                                                                                                                                                ResolveGuard::Respond(x) => r == Action::Respond(x) && rest == c21,
                                                                                                                                                                                                                                                                ResolveGuard::Fail(e) => r == Action::Fail(e) && rest == c21,
                                                                                                                                                                                                                                                            },
                                                                                                                                                                                                                                                    ResolveGuard::Respond(x) => r == Action::Respond(x) && rest == c20,
                                                                                                                                                                                                                                                    ResolveGuard::Fail(e) => r == Action::Fail(e) && rest == c20,
                                                                                                                                                                                                                                                },
                                                                                                                                                                                                                                        ResolveGuard::Respond(x) => r == Action::Respond(x) && rest == c19,
                                                                                                                                                                                                                                        ResolveGuard::Fail(e) => r == Action::Fail(e) && rest == c19,
                                                                                                                                                                                                                                    },
                                                                                                                                                                                                                            ResolveGuard::Respond(x) => r == Action::Respond(x) && rest == c18,
                                                                                                                                                                                                                            ResolveGuard::Fail(e) => r == Action::Fail(e) && rest == c18,
                                                                                                                                                                                                                        },
                                                                                                                                                                                                                ResolveGuard::Respond(x) => r == Action::Respond(x) && rest == c17,
                                                                                                                                                                                                                ResolveGuard::Fail(e) => r == Action::Fail(e) && rest == c17,
                                                                                                                                                                                                            },
                                                                                                                                                                                                    ResolveGuard::Respond(x) => r == Action::Respond(x) && rest == c16,
                                                                                                                                                                                                    ResolveGuard::Fail(e) => r == Action::Fail(e) && rest == c16,
                                                                                                                                                                                                },
                                                                                                                                                                                        ResolveGuard::Respond(x) => r == Action::Respond(x) && rest == c15,
                                                                                                                                                                                        ResolveGuard::Fail(e) => r == Action::Fail(e) && rest == c15,
                                                                                                                                                                                    },
                                                                                                                                                                            ResolveGuard::Respond(x) => r == Action::Respond(x) && rest == c14,
                                                                                                                                                                            ResolveGuard::Fail(e) => r == Action::Fail(e) && rest == c14,
                                                                                                                                                                        },
                                                                                                                                                                ResolveGuard::Respond(x) => r == Action::Respond(x) && rest == c13,
                                                                                                                                                                ResolveGuard::Fail(e) => r == Action::Fail(e) && rest == c13,
                                                                                                                                                            },
                                                                                                                                                    ResolveGuard::Respond(x) => r == Action::Respond(x) && rest == c12,
                                                                                                                                                    ResolveGuard::Fail(e) => r == Action::Fail(e) && rest == c12,
                                                                                                                                                },
                                                                                                                                        ResolveGuard::Respond(x) => r == Action::Respond(x) && rest == c11,
                                                                                                                                        ResolveGuard::Fail(e) => r == Action::Fail(e) && rest == c11,
                                                                                                                                    },
                                                                                                                            ResolveGuard::Respond(x) => r == Action::Respond(x) && rest == c10,
                                                                                                                            ResolveGuard::Fail(e) => r == Action::Fail(e) && rest == c10,
                                                                                                                        },
                                                                                                                ResolveGuard::Respond(x) => r == Action::Respond(x) && rest == c9,
                                                                                                                ResolveGuard::Fail(e) => r == Action::Fail(e) && rest == c9,
                                                                                                            },
                                                                                                    ResolveGuard::Respond(x) => r == Action::Respond(x) && rest == c8,
                                                                                                    ResolveGuard::Fail(e) => r == Action::Fail(e) && rest == c8,
                                                                                                },
                                                                                        ResolveGuard::Respond(x) => r == Action::Respond(x) && rest == c7,
                                                                                        ResolveGuard::Fail(e) => r == Action::Fail(e) && rest == c7,
                                                                                    },
                                                                            ResolveGuard::Respond(x) => r == Action::Respond(x) && rest == c6,
                                                                            ResolveGuard::Fail(e) => r == Action::Fail(e) && rest == c6,
                                                                        },
                                                                ResolveGuard::Respond(x) => r == Action::Respond(x) && rest == c5,
                                                                ResolveGuard::Fail(e) => r == Action::Fail(e) && rest == c5,
                                                            },
                                                    ResolveGuard::Respond(x) => r == Action::Respond(x) && rest == c4,
                                                    ResolveGuard::Fail(e) => r == Action::Fail(e) && rest == c4,
                                                },
                                        ResolveGuard::Respond(x) => r == Action::Respond(x) && rest == c3,
                                        ResolveGuard::Fail(e) => r == Action::Fail(e) && rest == c3,
                                    },
                            ResolveGuard::Respond(x) => r == Action::Respond(x) && rest == c2,
                            ResolveGuard::Fail(e) => r == Action::Fail(e) && rest == c2,
                        },
                ResolveGuard::Respond(x) => r == Action::Respond(x) && rest == c1,
                ResolveGuard::Fail(e) => r == Action::Fail(e) && rest == c1,
            }
    }

    /// Resolves the parameters in order, then calls the function; the first parameter that
    /// does not resolve to a value decides the action instead.
    fn run(self, ctx: &RequestState<C>, captures: &mut Captures) -> (r: Action) {
        let (step, _) = resolve_param::<C, P1>(ctx, captures);
        let p1 = match step {
            Ok(v) => v,
            Err(a) => return a,
        };
        let (step, _) = resolve_param::<C, P2>(ctx, captures);
        let p2 = match step {
            Ok(v) => v,
            Err(a) => return a,
        };
        let (step, _) = resolve_param::<C, P3>(ctx, captures);
        let p3 = match step {
            Ok(v) => v,
            Err(a) => return a,
        };
        let (step, _) = resolve_param::<C, P4>(ctx, captures);
        let p4 = match step {
            Ok(v) => v,
            Err(a) => return a,
        };
        let (step, _) = resolve_param::<C, P5>(ctx, captures);
        let p5 = match step {
            Ok(v) => v,
            Err(a) => return a,
        };
        let (step, _) = resolve_param::<C, P6>(ctx, captures);
        let p6 = match step {
            Ok(v) => v,
            Err(a) => return a,
        };
        let (step, _) = resolve_param::<C, P7>(ctx, captures);
        let p7 = match step {
            Ok(v) => v,
            Err(a) => return a,
        };
        let (step, _) = resolve_param::<C, P8>(ctx, captures);
        let p8 = match step {
            Ok(v) => v,
            Err(a) => return a,
        };
        let (step, _) = resolve_param::<C, P9>(ctx, captures);
        let p9 = match step {
            Ok(v) => v,
            Err(a) => return a,
        };
        let (step, _) = resolve_param::<C, P10>(ctx, captures);
        let p10 = match step {
            Ok(v) => v,
            Err(a) => return a,
        };
        let (step, _) = resolve_param::<C, P11>(ctx, captures);
        let p11 = match step {
            Ok(v) => v,
            Err(a) => return a,
        };
        let (step, _) = resolve_param::<C, P12>(ctx, captures);
        let p12 = match step {
            Ok(v) => v,
            Err(a) => return a,
        };
        let (step, _) = resolve_param::<C, P13>(ctx, captures);
        let p13 = match step {
            Ok(v) => v,
            Err(a) => return a,
        };
        let (step, _) = resolve_param::<C, P14>(ctx, captures);
        let p14 = match step {
            Ok(v) => v,
            Err(a) => return a,
        };
        let (step, _) = resolve_param::<C, P15>(ctx, captures);
        let p15 = match step {
            Ok(v) => v,
            Err(a) => return a,
        };
        let (step, _) = resolve_param::<C, P16>(ctx, captures);
        let p16 = match step {
            Ok(v) => v,
            Err(a) => return a,
        };
        let (step, _) = resolve_param::<C, P17>(ctx, captures);
        let p17 = match step {
            Ok(v) => v,
            Err(a) => return a,
        };
        let (step, _) = resolve_param::<C, P18>(ctx, captures);
        let p18 = match step {
            Ok(v) => v,
            Err(a) => return a,
        };
        let (step, _) = resolve_param::<C, P19>(ctx, captures);
        let p19 = match step {
            Ok(v) => v,
            Err(a) => return a,
        };
        let (step, _) = resolve_param::<C, P20>(ctx, captures);
        let p20 = match step {
            Ok(v) => v,
            Err(a) => return a,
        };
        let (step, _) = resolve_param::<C, P21>(ctx, captures);
        let p21 = match step {
            Ok(v) => v,
            Err(a) => return a,
        };
        let (step, _) = resolve_param::<C, P22>(ctx, captures);
        let p22 = match step {
            Ok(v) => v,
            Err(a) => return a,
        };
        let (step, _) = resolve_param::<C, P23>(ctx, captures);
        let p23 = match step {
            Ok(v) => v,
            Err(a) => return a,
        };
        let (step, _) = resolve_param::<C, P24>(ctx, captures);
        let p24 = match step {
            Ok(v) => v,
            Err(a) => return a,
        };
        let ret = self(p1, p2, p3, p4, p5, p6, p7, p8, p9, p10, p11, p12, p13, p14, p15, p16, p17, p18, p19, p20, p21, p22, p23, p24);
        ret.action()
    }
}

impl<C, Ret: IntoAction, P1: Resolve<C>, P2: Resolve<C>, P3: Resolve<C>, P4: Resolve<C>, P5: Resolve<C>, P6: Resolve<C>, P7: Resolve<C>, P8: Resolve<C>, P9: Resolve<C>, P10: Resolve<C>, P11: Resolve<C>, P12: Resolve<C>, P13: Resolve<C>, P14: Resolve<C>, P15: Resolve<C>, P16: Resolve<C>, P17: Resolve<C>, P18: Resolve<C>, P19: Resolve<C>, P20: Resolve<C>, P21: Resolve<C>, P22: Resolve<C>, P23: Resolve<C>, P24: Resolve<C>, P25: Resolve<C>, Func: Fn(P1, P2, P3, P4, P5, P6, P7, P8, P9, P10, P11, P12, P13, P14, P15, P16, P17, P18, P19, P20, P21, P22, P23, P24, P25) -> Ret> System<C, (Ret, P1, P2, P3, P4, P5, P6, P7, P8, P9, P10, P11, P12, P13, P14, P15, P16, P17, P18, P19, P20, P21, P22, P23, P24, P25)> for Func {
    open spec fn run_ok(&self) -> bool {
        &&& forall|p1: P1, p2: P2, p3: P3, p4: P4, p5: P5, p6: P6, p7: P7, p8: P8, p9: P9, p10: P10, p11: P11, p12: P12, p13: P13, p14: P14, p15: P15, p16: P16, p17: P17, p18: P18, p19: P19, p20: P20, p21: P21, p22: P22, p23: P23, p24: P24, p25: P25| #[trigger] call_requires(*self, (p1, p2, p3, p4, p5, p6, p7, p8, p9, p10, p11, p12, p13, p14, p15, p16, p17, p18, p19, p20, p21, p22, p23, p24, p25))
        &&& forall|p1: P1, p2: P2, p3: P3, p4: P4, p5: P5, p6: P6, p7: P7, p8: P8, p9: P9, p10: P10, p11: P11, p12: P12, p13: P13, p14: P14, p15: P15, p16: P16, p17: P17, p18: P18, p19: P19, p20: P20, p21: P21, p22: P22, p23: P23, p24: P24, p25: P25, ret: Ret| #[trigger] call_ensures(*self, (p1, p2, p3, p4, p5, p6, p7, p8, p9, p10, p11, p12, p13, p14, p15, p16, p17, p18, p19, p20, p21, p22, p23, p24, p25), ret) ==> ret.action_ok()
    }

    open spec fn runs(&self, ctx: &RequestState<C>, captures: Seq<String>, r: Action, rest: Seq<String>) -> bool {
        exists|g1: ResolveGuard<P1>, c1: Seq<String>|
            #[trigger] P1::resolves(ctx, captures, g1, c1) && match g1 {
                ResolveGuard::Value(p1) =>
                    exists|g2: ResolveGuard<P2>, c2: Seq<String>|
                        #[trigger] P2::resolves(ctx, c1, g2, c2) && match g2 {
                            ResolveGuard::Value(p2) =>
                                exists|g3: ResolveGuard<P3>, c3: Seq<String>|
                                    #[trigger] P3::resolves(ctx, c2, g3, c3) && match g3 {
                                        ResolveGuard::Value(p3) =>
                                            exists|g4: ResolveGuard<P4>, c4: Seq<String>|
                                                #[trigger] P4::resolves(ctx, c3, g4, c4) && match g4 {
                                                    ResolveGuard::Value(p4) =>
                                                        exists|g5: ResolveGuard<P5>, c5: Seq<String>|
                                                            #[trigger] P5::resolves(ctx, c4, g5, c5) && match g5 {
                                                                ResolveGuard::Value(p5) =>
                                                                    exists|g6: ResolveGuard<P6>, c6: Seq<String>|
                                                                        #[trigger] P6::resolves(ctx, c5, g6, c6) && match g6 {
                                                                            ResolveGuard::Value(p6) =>
                                                                                exists|g7: ResolveGuard<P7>, c7: Seq<String>|
                                                                                    #[trigger] P7::resolves(ctx, c6, g7, c7) && match g7 {
                                                                                        ResolveGuard::Value(p7) =>
                                                                                            exists|g8: ResolveGuard<P8>, c8: Seq<String>|
                                                                                                #[trigger] P8::resolves(ctx, c7, g8, c8) && match g8 {
                                                                                                    ResolveGuard::Value(p8) =>
                                                                                                        exists|g9: ResolveGuard<P9>, c9: Seq<String>|
                                                                                                            #[trigger] P9::resolves(ctx, c8, g9, c9) && match g9 {
                                                                                                                ResolveGuard::Value(p9) =>
                                                                                                                    exists|g10: ResolveGuard<P10>, c10: Seq<String>|
                                                                                                                        #[trigger] P10::resolves(ctx, c9, g10, c10) && match g10 {
                                                                                                                            ResolveGuard::Value(p10) =>
                                                                                                                                exists|g11: ResolveGuard<P11>, c11: Seq<String>|
                                                                                                                                    #[trigger] P11::resolves(ctx, c10, g11, c11) && match g11 {
                                                                                                                                        ResolveGuard::Value(p11) =>
                                                                                                                                            exists|g12: ResolveGuard<P12>, c12: Seq<String>|
                                                                                                                                                #[trigger] P12::resolves(ctx, c11, g12, c12) && match g12 {
                                                                                                                                                    ResolveGuard::Value(p12) =>
                                                                                                                                                        exists|g13: ResolveGuard<P13>, c13: Seq<String>|
                                                                                                                                                            #[trigger] P13::resolves(ctx, c12, g13, c13) && match g13 {
                                                                                                                                                                ResolveGuard::Value(p13) =>
                                                                                                                                                                    exists|g14: ResolveGuard<P14>, c14: Seq<String>|
                                                                                                                                                                        #[trigger] P14::resolves(ctx, c13, g14, c14) && match g14 {
                                                                                                                                                                            ResolveGuard::Value(p14) =>
                                                                                                                                                                                exists|g15: ResolveGuard<P15>, c15: Seq<String>|
                                                                                                                                                                                    #[trigger] P15::resolves(ctx, c14, g15, c15) && match g15 {
                                                                                                                                                                                        ResolveGuard::Value(p15) =>
                                                                                                                                                                                            exists|g16: ResolveGuard<P16>, c16: Seq<String>|
                                                                                                                                                                                                #[trigger] P16::resolves(ctx, c15, g16, c16) && match g16 {
                                                                                                                                                                                                    ResolveGuard::Value(p16) =>
                                                                                                                                                                                                        exists|g17: ResolveGuard<P17>, c17: Seq<String>|
                                                                                                                                                                                                            #[trigger] P17::resolves(ctx, c16, g17, c17) && match g17 {
                                                                                                                                                                                                                ResolveGuard::Value(p17) =>
                                                                                                                                                                                                                    exists|g18: ResolveGuard<P18>, c18: Seq<String>|
                                                                                                                                                                                                                        #[trigger] P18::resolves(ctx, c17, g18, c18) && match g18 {
                                                                                                                                                                                                                            ResolveGuard::Value(p18) =>
                                                                                                                                                                                                                                exists|g19: ResolveGuard<P19>, c19: Seq<String>|
                                                                                                                                                                                                                                    #[trigger] P19::resolves(ctx, c18, g19, c19) && match g19 {
                                                                                                                                                                                                                                        ResolveGuard::Value(p19) =>
                                                                                                                                                                                                                                            exists|g20: ResolveGuard<P20>, c20: Seq<String>|
                                                                                                                                                                                                                                                #[trigger] P20::resolves(ctx, c19, g20, c20) && match g20 {
                                                                                                                                                                                                                                                    ResolveGuard::Value(p20) =>
                                                                                                                                                                                                                                                        exists|g21: ResolveGuard<P21>, c21: Seq<String>|
                                                                                                                                                                                                                                                            #[trigger] P21::resolves(ctx, c20, g21, c21) && match g21 {
                                                                                                                                                                                                                                                                ResolveGuard::Value(p21) =>
                                                                                                                                                                                                                                                                    exists|g22: ResolveGuard<P22>, c22: Seq<String>|
                                                                                                                                                                                                                                                                        #[trigger] P22::resolves(ctx, c21, g22, c22) && match g22 {
                                                                                                                                                                                                                                                                            ResolveGuard::Value(p22) =>
                                                                                                                                                                                                                                                                                exists|g23: ResolveGuard<P23>, c23: Seq<String>|
                                                                                                                                                                                                                                                                                    #[trigger] P23::resolves(ctx, c22, g23, c23) && match g23 {
                                                                                                                                                                                                                                                                                        ResolveGuard::Value(p23) =>
                                                                                                                                                                                                                                                                                            exists|g24: ResolveGuard<P24>, c24: Seq<String>|
                                                                                                                                                                                                                                                                                                #[trigger] P24::resolves(ctx, c23, g24, c24) && match g24 {
                                                                                                                                                                                                                                                                                                    ResolveGuard::Value(p24) =>
                                                                                                                                                                                                                                                                                                        exists|g25: ResolveGuard<P25>, c25: Seq<String>|
                                                                                                                                                                                                                                                                                                            #[trigger] P25::resolves(ctx, c24, g25, c25) && match g25 {
                                                                                                                                                                                                                                                                                                                ResolveGuard::Value(p25) =>
                                                                                                                                                                                                                                                                                                                    exists|ret: Ret| #[trigger] call_ensures(*self, (p1, p2, p3, p4, p5, p6, p7, p8, p9, p10, p11, p12, p13, p14, p15, p16, p17, p18, p19, p20, p21, p22, p23, p24, p25), ret) && ret.acts_as(r) && rest == c25,
                                                                                                                                                                                                                                                                                                                ResolveGuard::Respond(x) => r == Action::Respond(x) && rest == c25,
                                                                                                                                                                                                                                                                                                                ResolveGuard::Fail(e) => r == Action::Fail(e) && rest == c25,
                                                                                                                                                                                                                                                                                                            },
                                                                                                                                                                                                                                                                                                    ResolveGuard::Respond(x) => r == Action::Respond(x) && rest == c24,
                                                                                                                                                                                                                                                                                                    ResolveGuard::Fail(e) => r == Action::Fail(e) && rest == c24,
                                                                                                                                                                                                                                                                                                },
                                                                                                                                                                                                                                                                                        ResolveGuard::Respond(x) => r == Action::Respond(x) && rest == c23,
                                                                                                                                                                                                                                                                                        ResolveGuard::Fail(e) => r == Action::Fail(e) && rest == c23,
                                                                                                                                                                                                                                                                                    },
                                                                                                                                                                                                                                                                            ResolveGuard::Respond(x) => r == Action::Respond(x) && rest == c22,
                                                                                                                                                                                                                                                                            ResolveGuard::Fail(e) => r == Action::Fail(e) && rest == c22,
                                                                                                                                                                                                                                                                        },
                                                                                                                                                                                                                                                                ResolveGuard::Respond(x) => r == Action::Respond(x) && rest == c21,
                                                                                                                                                                                                                                                                ResolveGuard::Fail(e) => r == Action::Fail(e) && rest == c21,
                                                                                                                                                                                                                                                            },
                                                                                                                                                                                                                                                    ResolveGuard::Respond(x) => r == Action::Respond(x) && rest == c20,
                                                                                                                                                                                                                                                    ResolveGuard::Fail(e) => r == Action::Fail(e) && rest == c20,
                                                                                                                                                                                                                                                },
                                                                                                                                                                                                                                        ResolveGuard::Respond(x) => r == Action::Respond(x) && rest == c19,
                                                                                                                                                                                                                                        ResolveGuard::Fail(e) => r == Action::Fail(e) && rest == c19,
                                                                                                                                                                                                                                    },
                                                                                                                                                                                                                            ResolveGuard::Respond(x) => r == Action::Respond(x) && rest == c18,
                                                                                                                                                                                                                            ResolveGuard::Fail(e) => r == Action::Fail(e) && rest == c18,
                                                                                                                                                                                                                        },
                                                                                                                                                                                                                ResolveGuard::Respond(x) => r == Action::Respond(x) && rest == c17,
                                                                                                                                                                                                                ResolveGuard::Fail(e) => r == Action::Fail(e) && rest == c17,
                                                                                                                                                                                                            },
                                                                                                                                                                                                    ResolveGuard::Respond(x) => r == Action::Respond(x) && rest == c16,
                                                                                                                                                                                                    ResolveGuard::Fail(e) => r == Action::Fail(e) && rest == c16,
                                                                                                                                                                                                },
                                                                                                                                                                                        ResolveGuard::Respond(x) => r == Action::Respond(x) && rest == c15,
                                                                                                                                                                                        ResolveGuard::Fail(e) => r == Action::Fail(e) && rest == c15,
                                                                                                                                                                                    },
                                                                                                                                                                            ResolveGuard::Respond(x) => r == Action::Respond(x) && rest == c14,
                                                                                                                                                                            ResolveGuard::Fail(e) => r == Action::Fail(e) && rest == c14,
                                                                                                                                                                        },
                                                                                                                                                                ResolveGuard::Respond(x) => r == Action::Respond(x) && rest == c13,
                                                                                                                                                                ResolveGuard::Fail(e) => r == Action::Fail(e) && rest == c13,
                                                                                                                                                            },
                                                                                                                                                    ResolveGuard::Respond(x) => r == Action::Respond(x) && rest == c12,
                                                                                                                                                    ResolveGuard::Fail(e) => r == Action::Fail(e) && rest == c12,
                                                                                                                                                },
                                                                                                                                        ResolveGuard::Respond(x) => r == Action::Respond(x) && rest == c11,
                                                                                                                                        ResolveGuard::Fail(e) => r == Action::Fail(e) && rest == c11,
                                                                                                                                    },
                                                                                                                            ResolveGuard::Respond(x) => r == Action::Respond(x) && rest == c10,
                                                                                                                            ResolveGuard::Fail(e) => r == Action::Fail(e) && rest == c10,
                                                                                                                        },
                                                                                                                ResolveGuard::Respond(x) => r == Action::Respond(x) && rest == c9,
                                                                                                                ResolveGuard::Fail(e) => r == Action::Fail(e) && rest == c9,
                                                                                                            },
                                                                                                    ResolveGuard::Respond(x) => r == Action::Respond(x) && rest == c8,
                                                                                                    ResolveGuard::Fail(e) => r == Action::Fail(e) && rest == c8,
                                                                                                },
                                                                                        ResolveGuard::Respond(x) => r == Action::Respond(x) && rest == c7,
                                                                                        ResolveGuard::Fail(e) => r == Action::Fail(e) && rest == c7,
                                                                                    },
                                                                            ResolveGuard::Respond(x) => r == Action::Respond(x) && rest == c6,
                                                                            ResolveGuard::Fail(e) => r == Action::Fail(e) && rest == c6,
                                                                        },
                                                                ResolveGuard::Respond(x) => r == Action::Respond(x) && rest == c5,
                                                                ResolveGuard::Fail(e) => r == Action::Fail(e) && rest == c5,
                                                            },
                                                    ResolveGuard::Respond(x) => r == Action::Respond(x) && rest == c4,
                                                    ResolveGuard::Fail(e) => r == Action::Fail(e) && rest == c4,
                                                },
                                        ResolveGuard::Respond(x) => r == Action::Respond(x) && rest == c3,
                                        ResolveGuard::Fail(e) => r == Action::Fail(e) && rest == c3,
                                    },
                            ResolveGuard::Respond(x) => r == Action::Respond(x) && rest == c2,
                            ResolveGuard::Fail(e) => r == Action::Fail(e) && rest == c2,
                        },
                ResolveGuard::Respond(x) => r == Action::Respond(x) && rest == c1,
                ResolveGuard::Fail(e) => r == Action::Fail(e) && rest == c1,
            }
    }

    /// Resolves the parameters in order, then calls the function; the first parameter that
    /// does not resolve to a value decides the action instead.
    fn run(self, ctx: &RequestState<C>, captures: &mut Captures) -> (r: Action) {
        let (step, _) = resolve_param::<C, P1>(ctx, captures);
        let p1 = match step {
            Ok(v) => v,
            Err(a) => return a,
        };
        let (step, _) = resolve_param::<C, P2>(ctx, captures);
        let p2 = match step {
            Ok(v) => v,
            Err(a) => return a,
        };
        let (step, _) = resolve_param::<C, P3>(ctx, captures);
        let p3 = match step {
            Ok(v) => v,
            Err(a) => return a,
        };
        let (step, _) = resolve_param::<C, P4>(ctx, captures);
        let p4 = match step {
            Ok(v) => v,
            Err(a) => return a,
        };
        let (step, _) = resolve_param::<C, P5>(ctx, captures);
        let p5 = match step {
            Ok(v) => v,
            Err(a) => return a,
        };
        let (step, _) = resolve_param::<C, P6>(ctx, captures);
        let p6 = match step {
            Ok(v) => v,
            Err(a) => return a,
        };
        let (step, _) = resolve_param::<C, P7>(ctx, captures);
        let p7 = match step {
            Ok(v) => v,
            Err(a) => return a,
        };
        let (step, _) = resolve_param::<C, P8>(ctx, captures);
        let p8 = match step {
            Ok(v) => v,
            Err(a) => return a,
        };
        let (step, _) = resolve_param::<C, P9>(ctx, captures);
        let p9 = match step {
            Ok(v) => v,
            Err(a) => return a,
        };
        let (step, _) = resolve_param::<C, P10>(ctx, captures);
        let p10 = match step {
            Ok(v) => v,
            Err(a) => return a,
        };
        let (step, _) = resolve_param::<C, P11>(ctx, captures);
        let p11 = match step {
            Ok(v) => v,
            Err(a) => return a,
        };
        let (step, _) = resolve_param::<C, P12>(ctx, captures);
        let p12 = match step {
            Ok(v) => v,
            Err(a) => return a,
        };
        let (step, _) = resolve_param::<C, P13>(ctx, captures);
        let p13 = match step {
            Ok(v) => v,
            Err(a) => return a,
        };
        let (step, _) = resolve_param::<C, P14>(ctx, captures);
        let p14 = match step {
            Ok(v) => v,
            Err(a) => return a,
        };
        let (step, _) = resolve_param::<C, P15>(ctx, captures);
        let p15 = match step {
            Ok(v) => v,
            Err(a) => return a,
        };
        let (step, _) = resolve_param::<C, P16>(ctx, captures);
        let p16 = match step {
            Ok(v) => v,
            Err(a) => return a,
        };
        let (step, _) = resolve_param::<C, P17>(ctx, captures);
        let p17 = match step {
            Ok(v) => v,
            Err(a) => return a,
        };
        let (step, _) = resolve_param::<C, P18>(ctx, captures);
        let p18 = match step {
            Ok(v) => v,
            Err(a) => return a,
        };
        let (step, _) = resolve_param::<C, P19>(ctx, captures);
        let p19 = match step {
            Ok(v) => v,
            Err(a) => return a,
        };
        let (step, _) = resolve_param::<C, P20>(ctx, captures);
        let p20 = match step {
            Ok(v) => v,
            Err(a) => return a,
        };
        let (step, _) = resolve_param::<C, P21>(ctx, captures);
        let p21 = match step {
            Ok(v) => v,
            Err(a) => return a,
        };
        let (step, _) = resolve_param::<C, P22>(ctx, captures);
        let p22 = match step {
            Ok(v) => v,
            Err(a) => return a,
        };
        let (step, _) = resolve_param::<C, P23>(ctx, captures);
        let p23 = match step {
            Ok(v) => v,
            Err(a) => return a,
        };
        let (step, _) = resolve_param::<C, P24>(ctx, captures);
        let p24 = match step {
            Ok(v) => v,
            Err(a) => return a,
        };
        let (step, _) = resolve_param::<C, P25>(ctx, captures);
        let p25 = match step {
            Ok(v) => v,
            Err(a) => return a,
        };
        let ret = self(p1, p2, p3, p4, p5, p6, p7, p8, p9, p10, p11, p12, p13, p14, p15, p16, p17, p18, p19, p20, p21, p22, p23, p24, p25);
        ret.action()
    }
}

impl<C, Ret: IntoAction, P1: Resolve<C>, P2: Resolve<C>, P3: Resolve<C>, P4: Resolve<C>, P5: Resolve<C>, P6: Resolve<C>, P7: Resolve<C>, P8: Resolve<C>, P9: Resolve<C>, P10: Resolve<C>, P11: Resolve<C>, P12: Resolve<C>, P13: Resolve<C>, P14: Resolve<C>, P15: Resolve<C>, P16: Resolve<C>, P17: Resolve<C>, P18: Resolve<C>, P19: Resolve<C>, P20: Resolve<C>, P21: Resolve<C>, P22: Resolve<C>, P23: Resolve<C>, P24: Resolve<C>, P25: Resolve<C>, P26: Resolve<C>, Func: Fn(P1, P2, P3, P4, P5, P6, P7, P8, P9, P10, P11, P12, P13, P14, P15, P16, P17, P18, P19, P20, P21, P22, P23, P24, P25, P26) -> Ret> System<C, (Ret, P1, P2, P3, P4, P5, P6, P7, P8, P9, P10, P11, P12, P13, P14, P15, P16, P17, P18, P19, P20, P21, P22, P23, P24, P25, P26)> for Func {
    open spec fn run_ok(&self) -> bool {
        &&& forall|p1: P1, p2: P2, p3: P3, p4: P4, p5: P5, p6: P6, p7: P7, p8: P8, p9: P9, p10: P10, p11: P11, p12: P12, p13: P13, p14: P14, p15: P15, p16: P16, p17: P17, p18: P18, p19: P19, p20: P20, p21: P21, p22: P22, p23: P23, p24: P24, p25: P25, p26: P26| #[trigger] call_requires(*self, (p1, p2, p3, p4, p5, p6, p7, p8, p9, p10, p11, p12, p13, p14, p15, p16, p17, p18, p19, p20, p21, p22, p23, p24, p25, p26))
        &&& forall|p1: P1, p2: P2, p3: P3, p4: P4, p5: P5, p6: P6, p7: P7, p8: P8, p9: P9, p10: P10, p11: P11, p12: P12, p13: P13, p14: P14, p15: P15, p16: P16, p17: P17, p18: P18, p19: P19, p20: P20, p21: P21, p22: P22, p23: P23, p24: P24, p25: P25, p26: P26, ret: Ret| #[trigger] call_ensures(*self, (p1, p2, p3, p4, p5, p6, p7, p8, p9, p10, p11, p12, p13, p14, p15, p16, p17, p18, p19, p20, p21, p22, p23, p24, p25, p26), ret) ==> ret.action_ok()
    }

    open spec fn runs(&self, ctx: &RequestState<C>, captures: Seq<String>, r: Action, rest: Seq<String>) -> bool {
        exists|g1: ResolveGuard<P1>, c1: Seq<String>|
            #[trigger] P1::resolves(ctx, captures, g1, c1) && match g1 {
                ResolveGuard::Value(p1) =>
                    exists|g2: ResolveGuard<P2>, c2: Seq<String>|
                        #[trigger] P2::resolves(ctx, c1, g2, c2) && match g2 {
                            ResolveGuard::Value(p2) =>
                                exists|g3: ResolveGuard<P3>, c3: Seq<String>|
                                    #[trigger] P3::resolves(ctx, c2, g3, c3) && match g3 {
                                        ResolveGuard::Value(p3) =>
                                            exists|g4: ResolveGuard<P4>, c4: Seq<String>|
                                                #[trigger] P4::resolves(ctx, c3, g4, c4) && match g4 {
                                                    ResolveGuard::Value(p4) =>
                                                        exists|g5: ResolveGuard<P5>, c5: Seq<String>|
                                                            #[trigger] P5::resolves(ctx, c4, g5, c5) && match g5 {
                                                                ResolveGuard::Value(p5) =>
                                                                    exists|g6: ResolveGuard<P6>, c6: Seq<String>|
                                                                        #[trigger] P6::resolves(ctx, c5, g6, c6) && match g6 {
                                                                            ResolveGuard::Value(p6) =>
                                                                                exists|g7: ResolveGuard<P7>, c7: Seq<String>|
                                                                                    #[trigger] P7::resolves(ctx, c6, g7, c7) && match g7 {
                                                                                        ResolveGuard::Value(p7) =>
                                                                                            exists|g8: ResolveGuard<P8>, c8: Seq<String>|
                                                                                                #[trigger] P8::resolves(ctx, c7, g8, c8) && match g8 {
                                                                                                    ResolveGuard::Value(p8) =>
                                                                                                        exists|g9: ResolveGuard<P9>, c9: Seq<String>|
                                                                                                            #[trigger] P9::resolves(ctx, c8, g9, c9) && match g9 {
                                                                                                                ResolveGuard::Value(p9) =>
                                                                                                                    exists|g10: ResolveGuard<P10>, c10: Seq<String>|
                                                                                                                        #[trigger] P10::resolves(ctx, c9, g10, c10) && match g10 {
                                                                                                                            ResolveGuard::Value(p10) =>
                                                                                                                                exists|g11: ResolveGuard<P11>, c11: Seq<String>|
                                                                                                                                    #[trigger] P11::resolves(ctx, c10, g11, c11) && match g11 {
                                                                                                                                        ResolveGuard::Value(p11) =>
                                                                                                                                            exists|g12: ResolveGuard<P12>, c12: Seq<String>|
                                                                                                                                                #[trigger] P12::resolves(ctx, c11, g12, c12) && match g12 {
                                                                                                                                                    ResolveGuard::Value(p12) =>
                                                                                                                                                        exists|g13: ResolveGuard<P13>, c13: Seq<String>|
                                                                                                                                                            #[trigger] P13::resolves(ctx, c12, g13, c13) && match g13 {
                                                                                                                                                                ResolveGuard::Value(p13) =>
                                                                                                                                                                    exists|g14: ResolveGuard<P14>, c14: Seq<String>|
                                                                                                                                                                        #[trigger] P14::resolves(ctx, c13, g14, c14) && match g14 {
                                                                                                                                                                            ResolveGuard::Value(p14) =>
                                                                                                                                                                                exists|g15: ResolveGuard<P15>, c15: Seq<String>|
                                                                                                                                                                                    #[trigger] P15::resolves(ctx, c14, g15, c15) && match g15 {
                                                                                                                                                                                        ResolveGuard::Value(p15) =>
                                                                                                                                                                                            exists|g16: ResolveGuard<P16>, c16: Seq<String>|
                                                                                                                                                                                                #[trigger] P16::resolves(ctx, c15, g16, c16) && match g16 {
                                                                                                                                                                                                    ResolveGuard::Value(p16) =>
                                                                                                                                                                                                        exists|g17: ResolveGuard<P17>, c17: Seq<String>|
                                                                                                                                                                                                            #[trigger] P17::resolves(ctx, c16, g17, c17) && match g17 {
                                                                                                                                                                                                                ResolveGuard::Value(p17) =>
                                                                                                                                                                                                                    exists|g18: ResolveGuard<P18>, c18: Seq<String>|
                                                                                                                                                                                                                        #[trigger] P18::resolves(ctx, c17, g18, c18) && match g18 {
                                                                                                                                                                                                                            ResolveGuard::Value(p18) =>
                                                                                                                                                                                                                                exists|g19: ResolveGuard<P19>, c19: Seq<String>|
                                                                                                                                                                                                                                    #[trigger] P19::resolves(ctx, c18, g19, c19) && match g19 {
                                                                                                                                                                                                                                        ResolveGuard::Value(p19) =>
                                                                                                                                                                                                                                            exists|g20: ResolveGuard<P20>, c20: Seq<String>|
                                                                                                                                                                                                                                                #[trigger] P20::resolves(ctx, c19, g20, c20) && match g20 {
                                                                                                                                                                                                                                                    ResolveGuard::Value(p20) =>
                                                                                                                                                                                                                                                        exists|g21: ResolveGuard<P21>, c21: Seq<String>|
                                                                                                                                                                                                                                                            #[trigger] P21::resolves(ctx, c20, g21, c21) && match g21 {
                                                                                                                                                                                                                                                                ResolveGuard::Value(p21) =>
                                                                                                                                                                                                                                                                    exists|g22: ResolveGuard<P22>, c22: Seq<String>|
                                                                                                                                                                                                                                                                        #[trigger] P22::resolves(ctx, c21, g22, c22) && match g22 {
                                                                                                                                                                                                                                                                            ResolveGuard::Value(p22) =>
                                                                                                                                                                                                                                                                                exists|g23: ResolveGuard<P23>, c23: Seq<String>|
                                                                                                                                                                                                                                                                                    #[trigger] P23::resolves(ctx, c22, g23, c23) && match g23 {
                                                                                                                                                                                                                                                                                        ResolveGuard::Value(p23) =>
                                                                                                                                                                                                                                                                                            exists|g24: ResolveGuard<P24>, c24: Seq<String>|
                                                                                                                                                                                                                                                                                                #[trigger] P24::resolves(ctx, c23, g24, c24) && match g24 {
                                                                                                                                                                                                                                                                                                    ResolveGuard::Value(p24) =>
                                                                                                                                                                                                                                                                                                        exists|g25: ResolveGuard<P25>, c25: Seq<String>|
                                                                                                                                                                                                                                                                                                            #[trigger] P25::resolves(ctx, c24, g25, c25) && match g25 {
                                                                                                                                                                                                                                                                                                                ResolveGuard::Value(p25) =>
                                                                                                                                                                                                                                                                                                                    exists|g26: ResolveGuard<P26>, c26: Seq<String>|
                                                                                                                                                                                                                                                                                                                        #[trigger] P26::resolves(ctx, c25, g26, c26) && match g26 {
                                                                                                                                                                                                                                                                                                                            ResolveGuard::Value(p26) =>
                                                                                                                                                                                                                                                                                                                                exists|ret: Ret| #[trigger] call_ensures(*self, (p1, p2, p3, p4, p5, p6, p7, p8, p9, p10, p11, p12, p13, p14, p15, p16, p17, p18, p19, p20, p21, p22, p23, p24, p25, p26), ret) && ret.acts_as(r) && rest == c26,
                                                                                                                                                                                                                                                                                                                            ResolveGuard::Respond(x) => r == Action::Respond(x) && rest == c26,
                                                                                                                                                                                                                                                                                                                            ResolveGuard::Fail(e) => r == Action::Fail(e) && rest == c26,
                                                                                                                                                                                                                                                                                                                        },
                                                                                                                                                                                                                                                                                                                ResolveGuard::Respond(x) => r == Action::Respond(x) && rest == c25,
                                                                                                                                                                                                                                                                                                                ResolveGuard::Fail(e) => r == Action::Fail(e) && rest == c25,
                                                                                                                                                                                                                                                                                                            },
                                                                                                                                                                                                                                                                                                    ResolveGuard::Respond(x) => r == Action::Respond(x) && rest == c24,
                                                                                                                                                                                                                                                                                                    ResolveGuard::Fail(e) => r == Action::Fail(e) && rest == c24,
                                                                                                                                                                                                                                                                                                },
                                                                                                                                                                                                                                                                                        ResolveGuard::Respond(x) => r == Action::Respond(x) && rest == c23,
                                                                                                                                                                                                                                                                                        ResolveGuard::Fail(e) => r == Action::Fail(e) && rest == c23,
                                                                                                                                                                                                                                                                                    },
                                                                                                                                                                                                                                                                            ResolveGuard::Respond(x) => r == Action::Respond(x) && rest == c22,
                                                                                                                                                                                                                                                                            ResolveGuard::Fail(e) => r == Action::Fail(e) && rest == c22,
                                                                                                                                                                                                                                                                        },
                                                                                                                                                                                                                                                                ResolveGuard::Respond(x) => r == Action::Respond(x) && rest == c21,
                                                                                                                                                                                                                                                                ResolveGuard::Fail(e) => r == Action::Fail(e) && rest == c21,
                                                                                                                                                                                                                                                            },
                                                                                                                                                                                                                                                    ResolveGuard::Respond(x) => r == Action::Respond(x) && rest == c20,
                                                                                                                                                                                                                                                    ResolveGuard::Fail(e) => r == Action::Fail(e) && rest == c20,
                                                                                                                                                                                                                                                },
                                                                                                                                                                                                                                        ResolveGuard::Respond(x) => r == Action::Respond(x) && rest == c19,
                                                                                                                                                                                                                                        ResolveGuard::Fail(e) => r == Action::Fail(e) && rest == c19,
                                                                                                                                                                                                                                    },
                                                                                                                                                                                                                            ResolveGuard::Respond(x) => r == Action::Respond(x) && rest == c18,
                                                                                                                                                                                                                            ResolveGuard::Fail(e) => r == Action::Fail(e) && rest == c18,
                                                                                                                                                                                                                        },
                                                                                                                                                                                                                ResolveGuard::Respond(x) => r == Action::Respond(x) && rest == c17,
                                                                                                                                                                                                                ResolveGuard::Fail(e) => r == Action::Fail(e) && rest == c17,
                                                                                                                                                                                                            },
                                                                                                                                                                                                    ResolveGuard::Respond(x) => r == Action::Respond(x) && rest == c16,
                                                                                                                                                                                                    ResolveGuard::Fail(e) => r == Action::Fail(e) && rest == c16,
                                                                                                                                                                                                },
                                                                                                                                                                                        ResolveGuard::Respond(x) => r == Action::Respond(x) && rest == c15,
                                                                                                                                                                                        ResolveGuard::Fail(e) => r == Action::Fail(e) && rest == c15,
                                                                                                                                                                                    },
                                                                                                                                                                            ResolveGuard::Respond(x) => r == Action::Respond(x) && rest == c14,
                                                                                                                                                                            ResolveGuard::Fail(e) => r == Action::Fail(e) && rest == c14,
                                                                                                                                                                        },
                                                                                                                                                                ResolveGuard::Respond(x) => r == Action::Respond(x) && rest == c13,
                                                                                                                                                                ResolveGuard::Fail(e) => r == Action::Fail(e) && rest == c13,
                                                                                                                                                            },
                                                                                                                                                    ResolveGuard::Respond(x) => r == Action::Respond(x) && rest == c12,
                                                                                                                                                    ResolveGuard::Fail(e) => r == Action::Fail(e) && rest == c12,
                                                                                                                                                },
                                                                                                                                        ResolveGuard::Respond(x) => r == Action::Respond(x) && rest == c11,
                                                                                                                                        ResolveGuard::Fail(e) => r == Action::Fail(e) && rest == c11,
                                                                                                                                    },
                                                                                                                            ResolveGuard::Respond(x) => r == Action::Respond(x) && rest == c10,
                                                                                                                            ResolveGuard::Fail(e) => r == Action::Fail(e) && rest == c10,
                                                                                                                        },
                                                                                                                ResolveGuard::Respond(x) => r == Action::Respond(x) && rest == c9,
                                                                                                                ResolveGuard::Fail(e) => r == Action::Fail(e) && rest == c9,
                                                                                                            },
                                                                                                    ResolveGuard::Respond(x) => r == Action::Respond(x) && rest == c8,
                                                                                                    ResolveGuard::Fail(e) => r == Action::Fail(e) && rest == c8,
                                                                                                },
                                                                                        ResolveGuard::Respond(x) => r == Action::Respond(x) && rest == c7,
                                                                                        ResolveGuard::Fail(e) => r == Action::Fail(e) && rest == c7,
                                                                                    },
                                                                            ResolveGuard::Respond(x) => r == Action::Respond(x) && rest == c6,
                                                                            ResolveGuard::Fail(e) => r == Action::Fail(e) && rest == c6,
                                                                        },
                                                                ResolveGuard::Respond(x) => r == Action::Respond(x) && rest == c5,
                                                                ResolveGuard::Fail(e) => r == Action::Fail(e) && rest == c5,
                                                            },
                                                    ResolveGuard::Respond(x) => r == Action::Respond(x) && rest == c4,
                                                    ResolveGuard::Fail(e) => r == Action::Fail(e) && rest == c4,
                                                },
                                        ResolveGuard::Respond(x) => r == Action::Respond(x) && rest == c3,
                                        ResolveGuard::Fail(e) => r == Action::Fail(e) && rest == c3,
                                    },
                            ResolveGuard::Respond(x) => r == Action::Respond(x) && rest == c2,
                            ResolveGuard::Fail(e) => r == Action::Fail(e) && rest == c2,
                        },
                ResolveGuard::Respond(x) => r == Action::Respond(x) && rest == c1,
                ResolveGuard::Fail(e) => r == Action::Fail(e) && rest == c1,
            }
    }

    /// Resolves the parameters in order, then calls the function; the first parameter that
    /// does not resolve to a value decides the action instead.
    fn run(self, ctx: &RequestState<C>, captures: &mut Captures) -> (r: Action) {
        let (step, _) = resolve_param::<C, P1>(ctx, captures);
        let p1 = match step {
            Ok(v) => v,
            Err(a) => return a,
        };
        let (step, _) = resolve_param::<C, P2>(ctx, captures);
        let p2 = match step {
            Ok(v) => v,
            Err(a) => return a,
        };
        let (step, _) = resolve_param::<C, P3>(ctx, captures);
        let p3 = match step {
            Ok(v) => v,
            Err(a) => return a,
        };
        let (step, _) = resolve_param::<C, P4>(ctx, captures);
        let p4 = match step {
            Ok(v) => v,
            Err(a) => return a,
        };
        let (step, _) = resolve_param::<C, P5>(ctx, captures);
        let p5 = match step {
            Ok(v) => v,
            Err(a) => return a,
        };
        let (step, _) = resolve_param::<C, P6>(ctx, captures);
        let p6 = match step {
            Ok(v) => v,
            Err(a) => return a,
        };
        let (step, _) = resolve_param::<C, P7>(ctx, captures);
        let p7 = match step {
            Ok(v) => v,
            Err(a) => return a,
        };
        let (step, _) = resolve_param::<C, P8>(ctx, captures);
        let p8 = match step {
            Ok(v) => v,
            Err(a) => return a,
        };
        let (step, _) = resolve_param::<C, P9>(ctx, captures);
        let p9 = match step {
            Ok(v) => v,
            Err(a) => return a,
        };
        let (step, _) = resolve_param::<C, P10>(ctx, captures);
        let p10 = match step {
            Ok(v) => v,
            Err(a) => return a,
        };
        let (step, _) = resolve_param::<C, P11>(ctx, captures);
        let p11 = match step {
            Ok(v) => v,
            Err(a) => return a,
        };
        let (step, _) = resolve_param::<C, P12>(ctx, captures);
        let p12 = match step {
            Ok(v) => v,
            Err(a) => return a,
        };
        let (step, _) = resolve_param::<C, P13>(ctx, captures);
        let p13 = match step {
            Ok(v) => v,
            Err(a) => return a,
        };
        let (step, _) = resolve_param::<C, P14>(ctx, captures);
        let p14 = match step {
            Ok(v) => v,
            Err(a) => return a,
        };
        let (step, _) = resolve_param::<C, P15>(ctx, captures);
        let p15 = match step {
            Ok(v) => v,
            Err(a) => return a,
        };
        let (step, _) = resolve_param::<C, P16>(ctx, captures);
        let p16 = match step {
            Ok(v) => v,
            Err(a) => return a,
        };
        let (step, _) = resolve_param::<C, P17>(ctx, captures);
        let p17 = match step {
            Ok(v) => v,
            Err(a) => return a,
        };
        let (step, _) = resolve_param::<C, P18>(ctx, captures);
        let p18 = match step {
            Ok(v) => v,
            Err(a) => return a,
        };
        let (step, _) = resolve_param::<C, P19>(ctx, captures);
        let p19 = match step {
            Ok(v) => v,
            Err(a) => return a,
        };
        let (step, _) = resolve_param::<C, P20>(ctx, captures);
        let p20 = match step {
            Ok(v) => v,
            Err(a) => return a,
        };
        let (step, _) = resolve_param::<C, P21>(ctx, captures);
        let p21 = match step {
            Ok(v) => v,
            Err(a) => return a,
        };
        let (step, _) = resolve_param::<C, P22>(ctx, captures);
        let p22 = match step {
            Ok(v) => v,
            Err(a) => return a,
        };
        let (step, _) = resolve_param::<C, P23>(ctx, captures);
        let p23 = match step {
            Ok(v) => v,
            Err(a) => return a,
        };
        let (step, _) = resolve_param::<C, P24>(ctx, captures);
        let p24 = match step {
            Ok(v) => v,
            Err(a) => return a,
        };
        let (step, _) = resolve_param::<C, P25>(ctx, captures);
        let p25 = match step {
            Ok(v) => v,
            Err(a) => return a,
        };
        let (step, _) = resolve_param::<C, P26>(ctx, captures);
        let p26 = match step {
            Ok(v) => v,
            Err(a) => return a,
        };
        let ret = self(p1, p2, p3, p4, p5, p6, p7, p8, p9, p10, p11, p12, p13, p14, p15, p16, p17, p18, p19, p20, p21, p22, p23, p24, p25, p26);
        ret.action()
    }
}

/// A system behind a trait object.
pub trait SystemCall<C>: Send + Sync {
    /// Whether calling on `ctx` with the url parts `captures` may give `r` and leave `rest`.
    spec fn calls(&self, ctx: &RequestState<C>, captures: Seq<String>, r: Action, rest: Seq<String>) -> bool;

    fn call(&self, ctx: &RequestState<C>, captures: &mut Captures) -> (r: Action)
        ensures
            self.calls(ctx, old(captures)@, r, final(captures)@),
            final(captures)@.len() <= old(captures)@.len(),
    ;
}

/// A system together with the parameter list it is run with.
struct Bound<C: Send + Sync, F: System<C, T> + Copy + Send + Sync, T: Send + Sync> {
    system: F,
    params: std::marker::PhantomData<(C, T)>,
}

impl<C: Send + Sync, F: System<C, T> + Copy + Send + Sync, T: Send + Sync> Bound<C, F, T> {
    #[verifier::type_invariant]
    spec fn inv(&self) -> bool {
        self.system.run_ok()
    }
}

impl<C: Send + Sync, F: System<C, T> + Copy + Send + Sync, T: Send + Sync> SystemCall<C> for Bound<C, F, T> {
    closed spec fn calls(&self, ctx: &RequestState<C>, captures: Seq<String>, r: Action, rest: Seq<String>) -> bool {
        self.system.runs(ctx, captures, r, rest)
    }

    fn call(&self, ctx: &RequestState<C>, captures: &mut Captures) -> (r: Action) {
        proof {
            use_type_invariant(self);
        }
        let system = self.system;
        system.run(ctx, captures)
    }
}

/// A system of any parameter list, boxed so that systems of different types can be stored
/// together.
#[verifier::reject_recursive_types(C)]
pub struct DynSystem<C> {
    inner: Box<dyn SystemCall<C>>,
}

impl<C> DynSystem<C> {
    /// Whether calling this system on `ctx` with the url parts `captures` may give `r` and
    /// leave the url parts `rest`.
    pub closed spec fn runs(&self, ctx: &RequestState<C>, captures: Seq<String>, r: Action, rest: Seq<String>) -> bool {
        self.inner.calls(ctx, captures, r, rest)
    }

    /// Runs the system; its parameters take url parts from the front of `captures`.
    pub fn call(&self, ctx: &RequestState<C>, captures: &mut Captures) -> (r: Action)
        ensures
            self.runs(ctx, old(captures)@, r, final(captures)@),
            final(captures)@.len() <= old(captures)@.len(),
    {
        self.inner.call(ctx, captures)
    }
}

impl<C: Send + Sync + 'static> DynSystem<C> {
    /// Boxes `system`, which accepts whatever its parameters resolve to.
    pub fn new<T: Send + Sync + 'static, F: System<C, T> + Copy + Send + Sync + 'static>(system: F) -> (d: Self)
        requires
            system.run_ok(),
        ensures
            forall|ctx: &RequestState<C>, captures: Seq<String>, r: Action, rest: Seq<String>|
                #[trigger] d.runs(ctx, captures, r, rest) == system.runs(ctx, captures, r, rest),
    {
        let bound = Bound { system, params: std::marker::PhantomData };
        let d = DynSystem { inner: Box::new(bound) };
        assert(forall|ctx: &RequestState<C>, captures: Seq<String>, r: Action, rest: Seq<String>|
            #[trigger] d.inner.calls(ctx, captures, r, rest) == bound.calls(ctx, captures, r, rest));
        d
    }
}

/// Conversion of a system into a boxed one.
pub trait IntoDynSystem<C, T>: Sized {
    /// Whether the conversion may be made.
    spec fn convertible(&self) -> bool;

    /// Whether `d` is what this value converts into.
    spec fn converts_to(&self, d: DynSystem<C>) -> bool;

    fn into_dyn_system(self) -> (d: DynSystem<C>)
        requires
            self.convertible(),
        ensures
            self.converts_to(d),
    ;
}

impl<
    C: Send + Sync + 'static,
    T: Send + Sync + 'static,
    F: System<C, T> + Copy + Send + Sync + 'static,
> IntoDynSystem<C, T> for F {
    open spec fn convertible(&self) -> bool {
        self.run_ok()
    }

    /// The boxed system runs as this one does.
    open spec fn converts_to(&self, d: DynSystem<C>) -> bool {
        forall|ctx: &RequestState<C>, captures: Seq<String>, r: Action, rest: Seq<String>|
            #[trigger] d.runs(ctx, captures, r, rest) == self.runs(ctx, captures, r, rest)
    }

    /// Boxes the system.
    fn into_dyn_system(self) -> (d: DynSystem<C>) {
        DynSystem::new(self)
    }
}



/// Run law: a function of no parameter that accepts the call, and whose every result can be
/// turned into an action, can be run as a system (its `run_ok` holds).
pub proof fn lemma_run_ok_0<C, Ret: IntoAction, Func: Fn() -> Ret>(f: Func)
    requires
        call_requires(f, ()),
        forall|ret: Ret| call_ensures(f, (), ret) ==> ret.action_ok(),
    ensures
        <Func as System<C, (Ret,)>>::run_ok(&f),
{
}

/// Run law: a function of one parameter that accepts every argument, and whose every result can
/// be turned into an action, can be run as a system (its `run_ok` holds).
pub proof fn lemma_run_ok_1<C, Ret: IntoAction, P1: Resolve<C>, Func: Fn(P1) -> Ret>(f: Func)
    requires
        forall|p1: P1| #[trigger] call_requires(f, (p1,)),
        forall|p1: P1, ret: Ret| #[trigger] call_ensures(f, (p1,), ret) ==> ret.action_ok(),
    ensures
        <Func as System<C, (Ret, P1)>>::run_ok(&f),
{
}

/// Run law: a function of 2 parameters that accepts every argument, and whose every result can
/// be turned into an action, can be run as a system (its `run_ok` holds).
pub proof fn lemma_run_ok_2<C, Ret: IntoAction, P1: Resolve<C>, P2: Resolve<C>, Func: Fn(P1, P2) -> Ret>(f: Func)
    requires
        forall|p1: P1, p2: P2| #[trigger] call_requires(f, (p1, p2)),
        forall|p1: P1, p2: P2, ret: Ret| #[trigger] call_ensures(f, (p1, p2), ret) ==> ret.action_ok(),
    ensures
        <Func as System<C, (Ret, P1, P2)>>::run_ok(&f),
{
}

/// Run law: a function of 3 parameters that accepts every argument, and whose every result can
/// be turned into an action, can be run as a system (its `run_ok` holds).
pub proof fn lemma_run_ok_3<C, Ret: IntoAction, P1: Resolve<C>, P2: Resolve<C>, P3: Resolve<C>, Func: Fn(P1, P2, P3) -> Ret>(f: Func)
    requires
        forall|p1: P1, p2: P2, p3: P3| #[trigger] call_requires(f, (p1, p2, p3)),
        forall|p1: P1, p2: P2, p3: P3, ret: Ret| #[trigger] call_ensures(f, (p1, p2, p3), ret) ==> ret.action_ok(),
    ensures
        <Func as System<C, (Ret, P1, P2, P3)>>::run_ok(&f),
{
}

/// Run law: a function of 4 parameters that accepts every argument, and whose every result can
/// be turned into an action, can be run as a system (its `run_ok` holds).
pub proof fn lemma_run_ok_4<C, Ret: IntoAction, P1: Resolve<C>, P2: Resolve<C>, P3: Resolve<C>, P4: Resolve<C>, Func: Fn(P1, P2, P3, P4) -> Ret>(f: Func)
    requires
        forall|p1: P1, p2: P2, p3: P3, p4: P4| #[trigger] call_requires(f, (p1, p2, p3, p4)),
        forall|p1: P1, p2: P2, p3: P3, p4: P4, ret: Ret| #[trigger] call_ensures(f, (p1, p2, p3, p4), ret) ==> ret.action_ok(),
    ensures
        <Func as System<C, (Ret, P1, P2, P3, P4)>>::run_ok(&f),
{
}

/// Run law: a function of 5 parameters that accepts every argument, and whose every result can
/// be turned into an action, can be run as a system (its `run_ok` holds).
pub proof fn lemma_run_ok_5<C, Ret: IntoAction, P1: Resolve<C>, P2: Resolve<C>, P3: Resolve<C>, P4: Resolve<C>, P5: Resolve<C>, Func: Fn(P1, P2, P3, P4, P5) -> Ret>(f: Func)
    requires
        forall|p1: P1, p2: P2, p3: P3, p4: P4, p5: P5| #[trigger] call_requires(f, (p1, p2, p3, p4, p5)),
        forall|p1: P1, p2: P2, p3: P3, p4: P4, p5: P5, ret: Ret| #[trigger] call_ensures(f, (p1, p2, p3, p4, p5), ret) ==> ret.action_ok(),
    ensures
        <Func as System<C, (Ret, P1, P2, P3, P4, P5)>>::run_ok(&f),
{
}

/// Run law: a function of 6 parameters that accepts every argument, and whose every result can
/// be turned into an action, can be run as a system (its `run_ok` holds).
pub proof fn lemma_run_ok_6<C, Ret: IntoAction, P1: Resolve<C>, P2: Resolve<C>, P3: Resolve<C>, P4: Resolve<C>, P5: Resolve<C>, P6: Resolve<C>, Func: Fn(P1, P2, P3, P4, P5, P6) -> Ret>(f: Func)
    requires
        forall|p1: P1, p2: P2, p3: P3, p4: P4, p5: P5, p6: P6| #[trigger] call_requires(f, (p1, p2, p3, p4, p5, p6)),
        forall|p1: P1, p2: P2, p3: P3, p4: P4, p5: P5, p6: P6, ret: Ret| #[trigger] call_ensures(f, (p1, p2, p3, p4, p5, p6), ret) ==> ret.action_ok(),
    ensures
        <Func as System<C, (Ret, P1, P2, P3, P4, P5, P6)>>::run_ok(&f),
{
}

/// Run law: a function of 7 parameters that accepts every argument, and whose every result can
/// be turned into an action, can be run as a system (its `run_ok` holds).
pub proof fn lemma_run_ok_7<C, Ret: IntoAction, P1: Resolve<C>, P2: Resolve<C>, P3: Resolve<C>, P4: Resolve<C>, P5: Resolve<C>, P6: Resolve<C>, P7: Resolve<C>, Func: Fn(P1, P2, P3, P4, P5, P6, P7) -> Ret>(f: Func)
    requires
        forall|p1: P1, p2: P2, p3: P3, p4: P4, p5: P5, p6: P6, p7: P7| #[trigger] call_requires(f, (p1, p2, p3, p4, p5, p6, p7)),
        forall|p1: P1, p2: P2, p3: P3, p4: P4, p5: P5, p6: P6, p7: P7, ret: Ret| #[trigger] call_ensures(f, (p1, p2, p3, p4, p5, p6, p7), ret) ==> ret.action_ok(),
    ensures
        <Func as System<C, (Ret, P1, P2, P3, P4, P5, P6, P7)>>::run_ok(&f),
{
}

/// Run law: a function of 8 parameters that accepts every argument, and whose every result can
/// be turned into an action, can be run as a system (its `run_ok` holds).
pub proof fn lemma_run_ok_8<C, Ret: IntoAction, P1: Resolve<C>, P2: Resolve<C>, P3: Resolve<C>, P4: Resolve<C>, P5: Resolve<C>, P6: Resolve<C>, P7: Resolve<C>, P8: Resolve<C>, Func: Fn(P1, P2, P3, P4, P5, P6, P7, P8) -> Ret>(f: Func)
    requires
        forall|p1: P1, p2: P2, p3: P3, p4: P4, p5: P5, p6: P6, p7: P7, p8: P8| #[trigger] call_requires(f, (p1, p2, p3, p4, p5, p6, p7, p8)),
        forall|p1: P1, p2: P2, p3: P3, p4: P4, p5: P5, p6: P6, p7: P7, p8: P8, ret: Ret| #[trigger] call_ensures(f, (p1, p2, p3, p4, p5, p6, p7, p8), ret) ==> ret.action_ok(),
    ensures
        <Func as System<C, (Ret, P1, P2, P3, P4, P5, P6, P7, P8)>>::run_ok(&f),
{
}

/// Run law: a function of 9 parameters that accepts every argument, and whose every result can
/// be turned into an action, can be run as a system (its `run_ok` holds).
pub proof fn lemma_run_ok_9<C, Ret: IntoAction, P1: Resolve<C>, P2: Resolve<C>, P3: Resolve<C>, P4: Resolve<C>, P5: Resolve<C>, P6: Resolve<C>, P7: Resolve<C>, P8: Resolve<C>, P9: Resolve<C>, Func: Fn(P1, P2, P3, P4, P5, P6, P7, P8, P9) -> Ret>(f: Func)
    requires
        forall|p1: P1, p2: P2, p3: P3, p4: P4, p5: P5, p6: P6, p7: P7, p8: P8, p9: P9| #[trigger] call_requires(f, (p1, p2, p3, p4, p5, p6, p7, p8, p9)),
        forall|p1: P1, p2: P2, p3: P3, p4: P4, p5: P5, p6: P6, p7: P7, p8: P8, p9: P9, ret: Ret| #[trigger] call_ensures(f, (p1, p2, p3, p4, p5, p6, p7, p8, p9), ret) ==> ret.action_ok(),
    ensures
        <Func as System<C, (Ret, P1, P2, P3, P4, P5, P6, P7, P8, P9)>>::run_ok(&f),
{
}

/// Run law: a function of 10 parameters that accepts every argument, and whose every result can
/// be turned into an action, can be run as a system (its `run_ok` holds).
pub proof fn lemma_run_ok_10<C, Ret: IntoAction, P1: Resolve<C>, P2: Resolve<C>, P3: Resolve<C>, P4: Resolve<C>, P5: Resolve<C>, P6: Resolve<C>, P7: Resolve<C>, P8: Resolve<C>, P9: Resolve<C>, P10: Resolve<C>, Func: Fn(P1, P2, P3, P4, P5, P6, P7, P8, P9, P10) -> Ret>(f: Func)
    requires
        forall|p1: P1, p2: P2, p3: P3, p4: P4, p5: P5, p6: P6, p7: P7, p8: P8, p9: P9, p10: P10| #[trigger] call_requires(f, (p1, p2, p3, p4, p5, p6, p7, p8, p9, p10)),
        forall|p1: P1, p2: P2, p3: P3, p4: P4, p5: P5, p6: P6, p7: P7, p8: P8, p9: P9, p10: P10, ret: Ret| #[trigger] call_ensures(f, (p1, p2, p3, p4, p5, p6, p7, p8, p9, p10), ret) ==> ret.action_ok(),
    ensures
        <Func as System<C, (Ret, P1, P2, P3, P4, P5, P6, P7, P8, P9, P10)>>::run_ok(&f),
{
}

/// Run law: a function of 11 parameters that accepts every argument, and whose every result can
/// be turned into an action, can be run as a system (its `run_ok` holds).
pub proof fn lemma_run_ok_11<C, Ret: IntoAction, P1: Resolve<C>, P2: Resolve<C>, P3: Resolve<C>, P4: Resolve<C>, P5: Resolve<C>, P6: Resolve<C>, P7: Resolve<C>, P8: Resolve<C>, P9: Resolve<C>, P10: Resolve<C>, P11: Resolve<C>, Func: Fn(P1, P2, P3, P4, P5, P6, P7, P8, P9, P10, P11) -> Ret>(f: Func)
    requires
        forall|p1: P1, p2: P2, p3: P3, p4: P4, p5: P5, p6: P6, p7: P7, p8: P8, p9: P9, p10: P10, p11: P11| #[trigger] call_requires(f, (p1, p2, p3, p4, p5, p6, p7, p8, p9, p10, p11)),
        forall|p1: P1, p2: P2, p3: P3, p4: P4, p5: P5, p6: P6, p7: P7, p8: P8, p9: P9, p10: P10, p11: P11, ret: Ret| #[trigger] call_ensures(f, (p1, p2, p3, p4, p5, p6, p7, p8, p9, p10, p11), ret) ==> ret.action_ok(),
    ensures
        <Func as System<C, (Ret, P1, P2, P3, P4, P5, P6, P7, P8, P9, P10, P11)>>::run_ok(&f),
{
}

/// Run law: a function of 12 parameters that accepts every argument, and whose every result can
/// be turned into an action, can be run as a system (its `run_ok` holds).
pub proof fn lemma_run_ok_12<C, Ret: IntoAction, P1: Resolve<C>, P2: Resolve<C>, P3: Resolve<C>, P4: Resolve<C>, P5: Resolve<C>, P6: Resolve<C>, P7: Resolve<C>, P8: Resolve<C>, P9: Resolve<C>, P10: Resolve<C>, P11: Resolve<C>, P12: Resolve<C>, Func: Fn(P1, P2, P3, P4, P5, P6, P7, P8, P9, P10, P11, P12) -> Ret>(f: Func)
    requires
        forall|p1: P1, p2: P2, p3: P3, p4: P4, p5: P5, p6: P6, p7: P7, p8: P8, p9: P9, p10: P10, p11: P11, p12: P12| #[trigger] call_requires(f, (p1, p2, p3, p4, p5, p6, p7, p8, p9, p10, p11, p12)),
        forall|p1: P1, p2: P2, p3: P3, p4: P4, p5: P5, p6: P6, p7: P7, p8: P8, p9: P9, p10: P10, p11: P11, p12: P12, ret: Ret| #[trigger] call_ensures(f, (p1, p2, p3, p4, p5, p6, p7, p8, p9, p10, p11, p12), ret) ==> ret.action_ok(),
    ensures
        <Func as System<C, (Ret, P1, P2, P3, P4, P5, P6, P7, P8, P9, P10, P11, P12)>>::run_ok(&f),
{
}

/// Run law: a function of 13 parameters that accepts every argument, and whose every result can
/// be turned into an action, can be run as a system (its `run_ok` holds).
pub proof fn lemma_run_ok_13<C, Ret: IntoAction, P1: Resolve<C>, P2: Resolve<C>, P3: Resolve<C>, P4: Resolve<C>, P5: Resolve<C>, P6: Resolve<C>, P7: Resolve<C>, P8: Resolve<C>, P9: Resolve<C>, P10: Resolve<C>, P11: Resolve<C>, P12: Resolve<C>, P13: Resolve<C>, Func: Fn(P1, P2, P3, P4, P5, P6, P7, P8, P9, P10, P11, P12, P13) -> Ret>(f: Func)
    requires
        forall|p1: P1, p2: P2, p3: P3, p4: P4, p5: P5, p6: P6, p7: P7, p8: P8, p9: P9, p10: P10, p11: P11, p12: P12, p13: P13| #[trigger] call_requires(f, (p1, p2, p3, p4, p5, p6, p7, p8, p9, p10, p11, p12, p13)),
        forall|p1: P1, p2: P2, p3: P3, p4: P4, p5: P5, p6: P6, p7: P7, p8: P8, p9: P9, p10: P10, p11: P11, p12: P12, p13: P13, ret: Ret| #[trigger] call_ensures(f, (p1, p2, p3, p4, p5, p6, p7, p8, p9, p10, p11, p12, p13), ret) ==> ret.action_ok(),
    ensures
        <Func as System<C, (Ret, P1, P2, P3, P4, P5, P6, P7, P8, P9, P10, P11, P12, P13)>>::run_ok(&f),
{
}

/// Run law: a function of 14 parameters that accepts every argument, and whose every result can
/// be turned into an action, can be run as a system (its `run_ok` holds).
pub proof fn lemma_run_ok_14<C, Ret: IntoAction, P1: Resolve<C>, P2: Resolve<C>, P3: Resolve<C>, P4: Resolve<C>, P5: Resolve<C>, P6: Resolve<C>, P7: Resolve<C>, P8: Resolve<C>, P9: Resolve<C>, P10: Resolve<C>, P11: Resolve<C>, P12: Resolve<C>, P13: Resolve<C>, P14: Resolve<C>, Func: Fn(P1, P2, P3, P4, P5, P6, P7, P8, P9, P10, P11, P12, P13, P14) -> Ret>(f: Func)
    requires
        forall|p1: P1, p2: P2, p3: P3, p4: P4, p5: P5, p6: P6, p7: P7, p8: P8, p9: P9, p10: P10, p11: P11, p12: P12, p13: P13, p14: P14| #[trigger] call_requires(f, (p1, p2, p3, p4, p5, p6, p7, p8, p9, p10, p11, p12, p13, p14)),
        forall|p1: P1, p2: P2, p3: P3, p4: P4, p5: P5, p6: P6, p7: P7, p8: P8, p9: P9, p10: P10, p11: P11, p12: P12, p13: P13, p14: P14, ret: Ret| #[trigger] call_ensures(f, (p1, p2, p3, p4, p5, p6, p7, p8, p9, p10, p11, p12, p13, p14), ret) ==> ret.action_ok(),
    ensures
        <Func as System<C, (Ret, P1, P2, P3, P4, P5, P6, P7, P8, P9, P10, P11, P12, P13, P14)>>::run_ok(&f),
{
}

/// Run law: a function of 15 parameters that accepts every argument, and whose every result can
/// be turned into an action, can be run as a system (its `run_ok` holds).
pub proof fn lemma_run_ok_15<C, Ret: IntoAction, P1: Resolve<C>, P2: Resolve<C>, P3: Resolve<C>, P4: Resolve<C>, P5: Resolve<C>, P6: Resolve<C>, P7: Resolve<C>, P8: Resolve<C>, P9: Resolve<C>, P10: Resolve<C>, P11: Resolve<C>, P12: Resolve<C>, P13: Resolve<C>, P14: Resolve<C>, P15: Resolve<C>, Func: Fn(P1, P2, P3, P4, P5, P6, P7, P8, P9, P10, P11, P12, P13, P14, P15) -> Ret>(f: Func)
    requires
        forall|p1: P1, p2: P2, p3: P3, p4: P4, p5: P5, p6: P6, p7: P7, p8: P8, p9: P9, p10: P10, p11: P11, p12: P12, p13: P13, p14: P14, p15: P15| #[trigger] call_requires(f, (p1, p2, p3, p4, p5, p6, p7, p8, p9, p10, p11, p12, p13, p14, p15)),
        forall|p1: P1, p2: P2, p3: P3, p4: P4, p5: P5, p6: P6, p7: P7, p8: P8, p9: P9, p10: P10, p11: P11, p12: P12, p13: P13, p14: P14, p15: P15, ret: Ret| #[trigger] call_ensures(f, (p1, p2, p3, p4, p5, p6, p7, p8, p9, p10, p11, p12, p13, p14, p15), ret) ==> ret.action_ok(),
    ensures
        <Func as System<C, (Ret, P1, P2, P3, P4, P5, P6, P7, P8, P9, P10, P11, P12, P13, P14, P15)>>::run_ok(&f),
{
}

/// Run law: a function of 16 parameters that accepts every argument, and whose every result can
/// be turned into an action, can be run as a system (its `run_ok` holds).
pub proof fn lemma_run_ok_16<C, Ret: IntoAction, P1: Resolve<C>, P2: Resolve<C>, P3: Resolve<C>, P4: Resolve<C>, P5: Resolve<C>, P6: Resolve<C>, P7: Resolve<C>, P8: Resolve<C>, P9: Resolve<C>, P10: Resolve<C>, P11: Resolve<C>, P12: Resolve<C>, P13: Resolve<C>, P14: Resolve<C>, P15: Resolve<C>, P16: Resolve<C>, Func: Fn(P1, P2, P3, P4, P5, P6, P7, P8, P9, P10, P11, P12, P13, P14, P15, P16) -> Ret>(f: Func)
    requires
        forall|p1: P1, p2: P2, p3: P3, p4: P4, p5: P5, p6: P6, p7: P7, p8: P8, p9: P9, p10: P10, p11: P11, p12: P12, p13: P13, p14: P14, p15: P15, p16: P16| #[trigger] call_requires(f, (p1, p2, p3, p4, p5, p6, p7, p8, p9, p10, p11, p12, p13, p14, p15, p16)),
        forall|p1: P1, p2: P2, p3: P3, p4: P4, p5: P5, p6: P6, p7: P7, p8: P8, p9: P9, p10: P10, p11: P11, p12: P12, p13: P13, p14: P14, p15: P15, p16: P16, ret: Ret| #[trigger] call_ensures(f, (p1, p2, p3, p4, p5, p6, p7, p8, p9, p10, p11, p12, p13, p14, p15, p16), ret) ==> ret.action_ok(),
    ensures
        <Func as System<C, (Ret, P1, P2, P3, P4, P5, P6, P7, P8, P9, P10, P11, P12, P13, P14, P15, P16)>>::run_ok(&f),
{
}

/// Run law: a function of 17 parameters that accepts every argument, and whose every result can
/// be turned into an action, can be run as a system (its `run_ok` holds).
pub proof fn lemma_run_ok_17<C, Ret: IntoAction, P1: Resolve<C>, P2: Resolve<C>, P3: Resolve<C>, P4: Resolve<C>, P5: Resolve<C>, P6: Resolve<C>, P7: Resolve<C>, P8: Resolve<C>, P9: Resolve<C>, P10: Resolve<C>, P11: Resolve<C>, P12: Resolve<C>, P13: Resolve<C>, P14: Resolve<C>, P15: Resolve<C>, P16: Resolve<C>, P17: Resolve<C>, Func: Fn(P1, P2, P3, P4, P5, P6, P7, P8, P9, P10, P11, P12, P13, P14, P15, P16, P17) -> Ret>(f: Func)
    requires
        forall|p1: P1, p2: P2, p3: P3, p4: P4, p5: P5, p6: P6, p7: P7, p8: P8, p9: P9, p10: P10, p11: P11, p12: P12, p13: P13, p14: P14, p15: P15, p16: P16, p17: P17| #[trigger] call_requires(f, (p1, p2, p3, p4, p5, p6, p7, p8, p9, p10, p11, p12, p13, p14, p15, p16, p17)),
        forall|p1: P1, p2: P2, p3: P3, p4: P4, p5: P5, p6: P6, p7: P7, p8: P8, p9: P9, p10: P10, p11: P11, p12: P12, p13: P13, p14: P14, p15: P15, p16: P16, p17: P17, ret: Ret| #[trigger] call_ensures(f, (p1, p2, p3, p4, p5, p6, p7, p8, p9, p10, p11, p12, p13, p14, p15, p16, p17), ret) ==> ret.action_ok(),
    ensures
        <Func as System<C, (Ret, P1, P2, P3, P4, P5, P6, P7, P8, P9, P10, P11, P12, P13, P14, P15, P16, P17)>>::run_ok(&f),
{
}

/// Run law: a function of 18 parameters that accepts every argument, and whose every result can
/// be turned into an action, can be run as a system (its `run_ok` holds).
pub proof fn lemma_run_ok_18<C, Ret: IntoAction, P1: Resolve<C>, P2: Resolve<C>, P3: Resolve<C>, P4: Resolve<C>, P5: Resolve<C>, P6: Resolve<C>, P7: Resolve<C>, P8: Resolve<C>, P9: Resolve<C>, P10: Resolve<C>, P11: Resolve<C>, P12: Resolve<C>, P13: Resolve<C>, P14: Resolve<C>, P15: Resolve<C>, P16: Resolve<C>, P17: Resolve<C>, P18: Resolve<C>, Func: Fn(P1, P2, P3, P4, P5, P6, P7, P8, P9, P10, P11, P12, P13, P14, P15, P16, P17, P18) -> Ret>(f: Func)
    requires
        forall|p1: P1, p2: P2, p3: P3, p4: P4, p5: P5, p6: P6, p7: P7, p8: P8, p9: P9, p10: P10, p11: P11, p12: P12, p13: P13, p14: P14, p15: P15, p16: P16, p17: P17, p18: P18| #[trigger] call_requires(f, (p1, p2, p3, p4, p5, p6, p7, p8, p9, p10, p11, p12, p13, p14, p15, p16, p17, p18)),
        forall|p1: P1, p2: P2, p3: P3, p4: P4, p5: P5, p6: P6, p7: P7, p8: P8, p9: P9, p10: P10, p11: P11, p12: P12, p13: P13, p14: P14, p15: P15, p16: P16, p17: P17, p18: P18, ret: Ret| #[trigger] call_ensures(f, (p1, p2, p3, p4, p5, p6, p7, p8, p9, p10, p11, p12, p13, p14, p15, p16, p17, p18), ret) ==> ret.action_ok(),
    ensures
        <Func as System<C, (Ret, P1, P2, P3, P4, P5, P6, P7, P8, P9, P10, P11, P12, P13, P14, P15, P16, P17, P18)>>::run_ok(&f),
{
}

/// Run law: a function of 19 parameters that accepts every argument, and whose every result can
/// be turned into an action, can be run as a system (its `run_ok` holds).
pub proof fn lemma_run_ok_19<C, Ret: IntoAction, P1: Resolve<C>, P2: Resolve<C>, P3: Resolve<C>, P4: Resolve<C>, P5: Resolve<C>, P6: Resolve<C>, P7: Resolve<C>, P8: Resolve<C>, P9: Resolve<C>, P10: Resolve<C>, P11: Resolve<C>, P12: Resolve<C>, P13: Resolve<C>, P14: Resolve<C>, P15: Resolve<C>, P16: Resolve<C>, P17: Resolve<C>, P18: Resolve<C>, P19: Resolve<C>, Func: Fn(P1, P2, P3, P4, P5, P6, P7, P8, P9, P10, P11, P12, P13, P14, P15, P16, P17, P18, P19) -> Ret>(f: Func)
    requires
        forall|p1: P1, p2: P2, p3: P3, p4: P4, p5: P5, p6: P6, p7: P7, p8: P8, p9: P9, p10: P10, p11: P11, p12: P12, p13: P13, p14: P14, p15: P15, p16: P16, p17: P17, p18: P18, p19: P19| #[trigger] call_requires(f, (p1, p2, p3, p4, p5, p6, p7, p8, p9, p10, p11, p12, p13, p14, p15, p16, p17, p18, p19)),
        forall|p1: P1, p2: P2, p3: P3, p4: P4, p5: P5, p6: P6, p7: P7, p8: P8, p9: P9, p10: P10, p11: P11, p12: P12, p13: P13, p14: P14, p15: P15, p16: P16, p17: P17, p18: P18, p19: P19, ret: Ret| #[trigger] call_ensures(f, (p1, p2, p3, p4, p5, p6, p7, p8, p9, p10, p11, p12, p13, p14, p15, p16, p17, p18, p19), ret) ==> ret.action_ok(),
    ensures
        <Func as System<C, (Ret, P1, P2, P3, P4, P5, P6, P7, P8, P9, P10, P11, P12, P13, P14, P15, P16, P17, P18, P19)>>::run_ok(&f),
{
}

/// Run law: a function of 20 parameters that accepts every argument, and whose every result can
/// be turned into an action, can be run as a system (its `run_ok` holds).
pub proof fn lemma_run_ok_20<C, Ret: IntoAction, P1: Resolve<C>, P2: Resolve<C>, P3: Resolve<C>, P4: Resolve<C>, P5: Resolve<C>, P6: Resolve<C>, P7: Resolve<C>, P8: Resolve<C>, P9: Resolve<C>, P10: Resolve<C>, P11: Resolve<C>, P12: Resolve<C>, P13: Resolve<C>, P14: Resolve<C>, P15: Resolve<C>, P16: Resolve<C>, P17: Resolve<C>, P18: Resolve<C>, P19: Resolve<C>, P20: Resolve<C>, Func: Fn(P1, P2, P3, P4, P5, P6, P7, P8, P9, P10, P11, P12, P13, P14, P15, P16, P17, P18, P19, P20) -> Ret>(f: Func)
    requires
        forall|p1: P1, p2: P2, p3: P3, p4: P4, p5: P5, p6: P6, p7: P7, p8: P8, p9: P9, p10: P10, p11: P11, p12: P12, p13: P13, p14: P14, p15: P15, p16: P16, p17: P17, p18: P18, p19: P19, p20: P20| #[trigger] call_requires(f, (p1, p2, p3, p4, p5, p6, p7, p8, p9, p10, p11, p12, p13, p14, p15, p16, p17, p18, p19, p20)),
        forall|p1: P1, p2: P2, p3: P3, p4: P4, p5: P5, p6: P6, p7: P7, p8: P8, p9: P9, p10: P10, p11: P11, p12: P12, p13: P13, p14: P14, p15: P15, p16: P16, p17: P17, p18: P18, p19: P19, p20: P20, ret: Ret| #[trigger] call_ensures(f, (p1, p2, p3, p4, p5, p6, p7, p8, p9, p10, p11, p12, p13, p14, p15, p16, p17, p18, p19, p20), ret) ==> ret.action_ok(),
    ensures
        <Func as System<C, (Ret, P1, P2, P3, P4, P5, P6, P7, P8, P9, P10, P11, P12, P13, P14, P15, P16, P17, P18, P19, P20)>>::run_ok(&f),
{
}

/// Run law: a function of 21 parameters that accepts every argument, and whose every result can
/// be turned into an action, can be run as a system (its `run_ok` holds).
pub proof fn lemma_run_ok_21<C, Ret: IntoAction, P1: Resolve<C>, P2: Resolve<C>, P3: Resolve<C>, P4: Resolve<C>, P5: Resolve<C>, P6: Resolve<C>, P7: Resolve<C>, P8: Resolve<C>, P9: Resolve<C>, P10: Resolve<C>, P11: Resolve<C>, P12: Resolve<C>, P13: Resolve<C>, P14: Resolve<C>, P15: Resolve<C>, P16: Resolve<C>, P17: Resolve<C>, P18: Resolve<C>, P19: Resolve<C>, P20: Resolve<C>, P21: Resolve<C>, Func: Fn(P1, P2, P3, P4, P5, P6, P7, P8, P9, P10, P11, P12, P13, P14, P15, P16, P17, P18, P19, P20, P21) -> Ret>(f: Func)
    requires
        forall|p1: P1, p2: P2, p3: P3, p4: P4, p5: P5, p6: P6, p7: P7, p8: P8, p9: P9, p10: P10, p11: P11, p12: P12, p13: P13, p14: P14, p15: P15, p16: P16, p17: P17, p18: P18, p19: P19, p20: P20, p21: P21| #[trigger] call_requires(f, (p1, p2, p3, p4, p5, p6, p7, p8, p9, p10, p11, p12, p13, p14, p15, p16, p17, p18, p19, p20, p21)),
        forall|p1: P1, p2: P2, p3: P3, p4: P4, p5: P5, p6: P6, p7: P7, p8: P8, p9: P9, p10: P10, p11: P11, p12: P12, p13: P13, p14: P14, p15: P15, p16: P16, p17: P17, p18: P18, p19: P19, p20: P20, p21: P21, ret: Ret| #[trigger] call_ensures(f, (p1, p2, p3, p4, p5, p6, p7, p8, p9, p10, p11, p12, p13, p14, p15, p16, p17, p18, p19, p20, p21), ret) ==> ret.action_ok(),
    ensures
        <Func as System<C, (Ret, P1, P2, P3, P4, P5, P6, P7, P8, P9, P10, P11, P12, P13, P14, P15, P16, P17, P18, P19, P20, P21)>>::run_ok(&f),
{
}

/// Run law: a function of 22 parameters that accepts every argument, and whose every result can
/// be turned into an action, can be run as a system (its `run_ok` holds).
pub proof fn lemma_run_ok_22<C, Ret: IntoAction, P1: Resolve<C>, P2: Resolve<C>, P3: Resolve<C>, P4: Resolve<C>, P5: Resolve<C>, P6: Resolve<C>, P7: Resolve<C>, P8: Resolve<C>, P9: Resolve<C>, P10: Resolve<C>, P11: Resolve<C>, P12: Resolve<C>, P13: Resolve<C>, P14: Resolve<C>, P15: Resolve<C>, P16: Resolve<C>, P17: Resolve<C>, P18: Resolve<C>, P19: Resolve<C>, P20: Resolve<C>, P21: Resolve<C>, P22: Resolve<C>, Func: Fn(P1, P2, P3, P4, P5, P6, P7, P8, P9, P10, P11, P12, P13, P14, P15, P16, P17, P18, P19, P20, P21, P22) -> Ret>(f: Func)
    requires
        forall|p1: P1, p2: P2, p3: P3, p4: P4, p5: P5, p6: P6, p7: P7, p8: P8, p9: P9, p10: P10, p11: P11, p12: P12, p13: P13, p14: P14, p15: P15, p16: P16, p17: P17, p18: P18, p19: P19, p20: P20, p21: P21, p22: P22| #[trigger] call_requires(f, (p1, p2, p3, p4, p5, p6, p7, p8, p9, p10, p11, p12, p13, p14, p15, p16, p17, p18, p19, p20, p21, p22)),
        forall|p1: P1, p2: P2, p3: P3, p4: P4, p5: P5, p6: P6, p7: P7, p8: P8, p9: P9, p10: P10, p11: P11, p12: P12, p13: P13, p14: P14, p15: P15, p16: P16, p17: P17, p18: P18, p19: P19, p20: P20, p21: P21, p22: P22, ret: Ret| #[trigger] call_ensures(f, (p1, p2, p3, p4, p5, p6, p7, p8, p9, p10, p11, p12, p13, p14, p15, p16, p17, p18, p19, p20, p21, p22), ret) ==> ret.action_ok(),
    ensures
        <Func as System<C, (Ret, P1, P2, P3, P4, P5, P6, P7, P8, P9, P10, P11, P12, P13, P14, P15, P16, P17, P18, P19, P20, P21, P22)>>::run_ok(&f),
{
}

/// Run law: a function of 23 parameters that accepts every argument, and whose every result can
/// be turned into an action, can be run as a system (its `run_ok` holds).
pub proof fn lemma_run_ok_23<C, Ret: IntoAction, P1: Resolve<C>, P2: Resolve<C>, P3: Resolve<C>, P4: Resolve<C>, P5: Resolve<C>, P6: Resolve<C>, P7: Resolve<C>, P8: Resolve<C>, P9: Resolve<C>, P10: Resolve<C>, P11: Resolve<C>, P12: Resolve<C>, P13: Resolve<C>, P14: Resolve<C>, P15: Resolve<C>, P16: Resolve<C>, P17: Resolve<C>, P18: Resolve<C>, P19: Resolve<C>, P20: Resolve<C>, P21: Resolve<C>, P22: Resolve<C>, P23: Resolve<C>, Func: Fn(P1, P2, P3, P4, P5, P6, P7, P8, P9, P10, P11, P12, P13, P14, P15, P16, P17, P18, P19, P20, P21, P22, P23) -> Ret>(f: Func)
    requires
        forall|p1: P1, p2: P2, p3: P3, p4: P4, p5: P5, p6: P6, p7: P7, p8: P8, p9: P9, p10: P10, p11: P11, p12: P12, p13: P13, p14: P14, p15: P15, p16: P16, p17: P17, p18: P18, p19: P19, p20: P20, p21: P21, p22: P22, p23: P23| #[trigger] call_requires(f, (p1, p2, p3, p4, p5, p6, p7, p8, p9, p10, p11, p12, p13, p14, p15, p16, p17, p18, p19, p20, p21, p22, p23)),
        forall|p1: P1, p2: P2, p3: P3, p4: P4, p5: P5, p6: P6, p7: P7, p8: P8, p9: P9, p10: P10, p11: P11, p12: P12, p13: P13, p14: P14, p15: P15, p16: P16, p17: P17, p18: P18, p19: P19, p20: P20, p21: P21, p22: P22, p23: P23, ret: Ret| #[trigger] call_ensures(f, (p1, p2, p3, p4, p5, p6, p7, p8, p9, p10, p11, p12, p13, p14, p15, p16, p17, p18, p19, p20, p21, p22, p23), ret) ==> ret.action_ok(),
    ensures
        <Func as System<C, (Ret, P1, P2, P3, P4, P5, P6, P7, P8, P9, P10, P11, P12, P13, P14, P15, P16, P17, P18, P19, P20, P21, P22, P23)>>::run_ok(&f),
{
}

/// Run law: a function of 24 parameters that accepts every argument, and whose every result can
/// be turned into an action, can be run as a system (its `run_ok` holds).
pub proof fn lemma_run_ok_24<C, Ret: IntoAction, P1: Resolve<C>, P2: Resolve<C>, P3: Resolve<C>, P4: Resolve<C>, P5: Resolve<C>, P6: Resolve<C>, P7: Resolve<C>, P8: Resolve<C>, P9: Resolve<C>, P10: Resolve<C>, P11: Resolve<C>, P12: Resolve<C>, P13: Resolve<C>, P14: Resolve<C>, P15: Resolve<C>, P16: Resolve<C>, P17: Resolve<C>, P18: Resolve<C>, P19: Resolve<C>, P20: Resolve<C>, P21: Resolve<C>, P22: Resolve<C>, P23: Resolve<C>, P24: Resolve<C>, Func: Fn(P1, P2, P3, P4, P5, P6, P7, P8, P9, P10, P11, P12, P13, P14, P15, P16, P17, P18, P19, P20, P21, P22, P23, P24) -> Ret>(f: Func)
    requires
        forall|p1: P1, p2: P2, p3: P3, p4: P4, p5: P5, p6: P6, p7: P7, p8: P8, p9: P9, p10: P10, p11: P11, p12: P12, p13: P13, p14: P14, p15: P15, p16: P16, p17: P17, p18: P18, p19: P19, p20: P20, p21: P21, p22: P22, p23: P23, p24: P24| #[trigger] call_requires(f, (p1, p2, p3, p4, p5, p6, p7, p8, p9, p10, p11, p12, p13, p14, p15, p16, p17, p18, p19, p20, p21, p22, p23, p24)),
        forall|p1: P1, p2: P2, p3: P3, p4: P4, p5: P5, p6: P6, p7: P7, p8: P8, p9: P9, p10: P10, p11: P11, p12: P12, p13: P13, p14: P14, p15: P15, p16: P16, p17: P17, p18: P18, p19: P19, p20: P20, p21: P21, p22: P22, p23: P23, p24: P24, ret: Ret| #[trigger] call_ensures(f, (p1, p2, p3, p4, p5, p6, p7, p8, p9, p10, p11, p12, p13, p14, p15, p16, p17, p18, p19, p20, p21, p22, p23, p24), ret) ==> ret.action_ok(),
    ensures
        <Func as System<C, (Ret, P1, P2, P3, P4, P5, P6, P7, P8, P9, P10, P11, P12, P13, P14, P15, P16, P17, P18, P19, P20, P21, P22, P23, P24)>>::run_ok(&f),
{
}

/// Run law: a function of 25 parameters that accepts every argument, and whose every result can
/// be turned into an action, can be run as a system (its `run_ok` holds).
pub proof fn lemma_run_ok_25<C, Ret: IntoAction, P1: Resolve<C>, P2: Resolve<C>, P3: Resolve<C>, P4: Resolve<C>, P5: Resolve<C>, P6: Resolve<C>, P7: Resolve<C>, P8: Resolve<C>, P9: Resolve<C>, P10: Resolve<C>, P11: Resolve<C>, P12: Resolve<C>, P13: Resolve<C>, P14: Resolve<C>, P15: Resolve<C>, P16: Resolve<C>, P17: Resolve<C>, P18: Resolve<C>, P19: Resolve<C>, P20: Resolve<C>, P21: Resolve<C>, P22: Resolve<C>, P23: Resolve<C>, P24: Resolve<C>, P25: Resolve<C>, Func: Fn(P1, P2, P3, P4, P5, P6, P7, P8, P9, P10, P11, P12, P13, P14, P15, P16, P17, P18, P19, P20, P21, P22, P23, P24, P25) -> Ret>(f: Func)
    requires
        forall|p1: P1, p2: P2, p3: P3, p4: P4, p5: P5, p6: P6, p7: P7, p8: P8, p9: P9, p10: P10, p11: P11, p12: P12, p13: P13, p14: P14, p15: P15, p16: P16, p17: P17, p18: P18, p19: P19, p20: P20, p21: P21, p22: P22, p23: P23, p24: P24, p25: P25| #[trigger] call_requires(f, (p1, p2, p3, p4, p5, p6, p7, p8, p9, p10, p11, p12, p13, p14, p15, p16, p17, p18, p19, p20, p21, p22, p23, p24, p25)),
        forall|p1: P1, p2: P2, p3: P3, p4: P4, p5: P5, p6: P6, p7: P7, p8: P8, p9: P9, p10: P10, p11: P11, p12: P12, p13: P13, p14: P14, p15: P15, p16: P16, p17: P17, p18: P18, p19: P19, p20: P20, p21: P21, p22: P22, p23: P23, p24: P24, p25: P25, ret: Ret| #[trigger] call_ensures(f, (p1, p2, p3, p4, p5, p6, p7, p8, p9, p10, p11, p12, p13, p14, p15, p16, p17, p18, p19, p20, p21, p22, p23, p24, p25), ret) ==> ret.action_ok(),
    ensures
        <Func as System<C, (Ret, P1, P2, P3, P4, P5, P6, P7, P8, P9, P10, P11, P12, P13, P14, P15, P16, P17, P18, P19, P20, P21, P22, P23, P24, P25)>>::run_ok(&f),
{
}

/// Run law: a function of 26 parameters that accepts every argument, and whose every result can
/// be turned into an action, can be run as a system (its `run_ok` holds).
pub proof fn lemma_run_ok_26<C, Ret: IntoAction, P1: Resolve<C>, P2: Resolve<C>, P3: Resolve<C>, P4: Resolve<C>, P5: Resolve<C>, P6: Resolve<C>, P7: Resolve<C>, P8: Resolve<C>, P9: Resolve<C>, P10: Resolve<C>, P11: Resolve<C>, P12: Resolve<C>, P13: Resolve<C>, P14: Resolve<C>, P15: Resolve<C>, P16: Resolve<C>, P17: Resolve<C>, P18: Resolve<C>, P19: Resolve<C>, P20: Resolve<C>, P21: Resolve<C>, P22: Resolve<C>, P23: Resolve<C>, P24: Resolve<C>, P25: Resolve<C>, P26: Resolve<C>, Func: Fn(P1, P2, P3, P4, P5, P6, P7, P8, P9, P10, P11, P12, P13, P14, P15, P16, P17, P18, P19, P20, P21, P22, P23, P24, P25, P26) -> Ret>(f: Func)
    requires
        forall|p1: P1, p2: P2, p3: P3, p4: P4, p5: P5, p6: P6, p7: P7, p8: P8, p9: P9, p10: P10, p11: P11, p12: P12, p13: P13, p14: P14, p15: P15, p16: P16, p17: P17, p18: P18, p19: P19, p20: P20, p21: P21, p22: P22, p23: P23, p24: P24, p25: P25, p26: P26| #[trigger] call_requires(f, (p1, p2, p3, p4, p5, p6, p7, p8, p9, p10, p11, p12, p13, p14, p15, p16, p17, p18, p19, p20, p21, p22, p23, p24, p25, p26)),
        forall|p1: P1, p2: P2, p3: P3, p4: P4, p5: P5, p6: P6, p7: P7, p8: P8, p9: P9, p10: P10, p11: P11, p12: P12, p13: P13, p14: P14, p15: P15, p16: P16, p17: P17, p18: P18, p19: P19, p20: P20, p21: P21, p22: P22, p23: P23, p24: P24, p25: P25, p26: P26, ret: Ret| #[trigger] call_ensures(f, (p1, p2, p3, p4, p5, p6, p7, p8, p9, p10, p11, p12, p13, p14, p15, p16, p17, p18, p19, p20, p21, p22, p23, p24, p25, p26), ret) ==> ret.action_ok(),
    ensures
        <Func as System<C, (Ret, P1, P2, P3, P4, P5, P6, P7, P8, P9, P10, P11, P12, P13, P14, P15, P16, P17, P18, P19, P20, P21, P22, P23, P24, P25, P26)>>::run_ok(&f),
{
}


/// Parameter-order law: a system of one url-part parameter, run on at least as many url parts,
/// resolves its parameters left to right: the first parameter gets the first part, the next
/// the next, and so on, and the parts after them are left.
pub proof fn lemma_parts_in_order_1<C, Ret: IntoAction, Func: Fn(UrlPart) -> Ret>(
    f: Func,
    ctx: &RequestState<C>,
    captures: Seq<String>,
    r: Action,
    rest: Seq<String>,
)
    requires
        captures.len() >= 1,
        <Func as System<C, (Ret, UrlPart)>>::runs(&f, ctx, captures, r, rest),
    ensures
        exists|ret: Ret| #[trigger] call_ensures(f, (UrlPart(captures[0]),), ret) && ret.acts_as(r),
        rest == captures.skip(1),
{
}

/// Parameter-order law: a system of 2 url-part parameters, run on at least as many url parts,
/// resolves its parameters left to right: the first parameter gets the first part, the next
/// the next, and so on, and the parts after them are left.
pub proof fn lemma_parts_in_order_2<C, Ret: IntoAction, Func: Fn(UrlPart, UrlPart) -> Ret>(
    f: Func,
    ctx: &RequestState<C>,
    captures: Seq<String>,
    r: Action,
    rest: Seq<String>,
)
    requires
        captures.len() >= 2,
        <Func as System<C, (Ret, UrlPart, UrlPart)>>::runs(&f, ctx, captures, r, rest),
    ensures
        exists|ret: Ret| #[trigger] call_ensures(f, (UrlPart(captures[0]), UrlPart(captures[1])), ret) && ret.acts_as(r),
        rest == captures.skip(2),
{
}

/// Parameter-order law: a system of 3 url-part parameters, run on at least as many url parts,
/// resolves its parameters left to right: the first parameter gets the first part, the next
/// the next, and so on, and the parts after them are left.
pub proof fn lemma_parts_in_order_3<C, Ret: IntoAction, Func: Fn(UrlPart, UrlPart, UrlPart) -> Ret>(
    f: Func,
    ctx: &RequestState<C>,
    captures: Seq<String>,
    r: Action,
    rest: Seq<String>,
)
    requires
        captures.len() >= 3,
        <Func as System<C, (Ret, UrlPart, UrlPart, UrlPart)>>::runs(&f, ctx, captures, r, rest),
    ensures
        exists|ret: Ret| #[trigger] call_ensures(f, (UrlPart(captures[0]), UrlPart(captures[1]), UrlPart(captures[2])), ret) && ret.acts_as(r),
        rest == captures.skip(3),
{
}

/// Parameter-order law: a system of 4 url-part parameters, run on at least as many url parts,
/// resolves its parameters left to right: the first parameter gets the first part, the next
/// the next, and so on, and the parts after them are left.
pub proof fn lemma_parts_in_order_4<C, Ret: IntoAction, Func: Fn(UrlPart, UrlPart, UrlPart, UrlPart) -> Ret>(
    f: Func,
    ctx: &RequestState<C>,
    captures: Seq<String>,
    r: Action,
    rest: Seq<String>,
)
    requires
        captures.len() >= 4,
        <Func as System<C, (Ret, UrlPart, UrlPart, UrlPart, UrlPart)>>::runs(&f, ctx, captures, r, rest),
    ensures
        exists|ret: Ret| #[trigger] call_ensures(f, (UrlPart(captures[0]), UrlPart(captures[1]), UrlPart(captures[2]), UrlPart(captures[3])), ret) && ret.acts_as(r),
        rest == captures.skip(4),
{
}

/// Parameter-order law: a system of 5 url-part parameters, run on at least as many url parts,
/// resolves its parameters left to right: the first parameter gets the first part, the next
/// the next, and so on, and the parts after them are left.
pub proof fn lemma_parts_in_order_5<C, Ret: IntoAction, Func: Fn(UrlPart, UrlPart, UrlPart, UrlPart, UrlPart) -> Ret>(
    f: Func,
    ctx: &RequestState<C>,
    captures: Seq<String>,
    r: Action,
    rest: Seq<String>,
)
    requires
        captures.len() >= 5,
        <Func as System<C, (Ret, UrlPart, UrlPart, UrlPart, UrlPart, UrlPart)>>::runs(&f, ctx, captures, r, rest),
    ensures
        exists|ret: Ret| #[trigger] call_ensures(f, (UrlPart(captures[0]), UrlPart(captures[1]), UrlPart(captures[2]), UrlPart(captures[3]), UrlPart(captures[4])), ret) && ret.acts_as(r),
        rest == captures.skip(5),
{
}

/// Parameter-order law: a system of 6 url-part parameters, run on at least as many url parts,
/// resolves its parameters left to right: the first parameter gets the first part, the next
/// the next, and so on, and the parts after them are left.
pub proof fn lemma_parts_in_order_6<C, Ret: IntoAction, Func: Fn(UrlPart, UrlPart, UrlPart, UrlPart, UrlPart, UrlPart) -> Ret>(
    f: Func,
    ctx: &RequestState<C>,
    captures: Seq<String>,
    r: Action,
    rest: Seq<String>,
)
    requires
        captures.len() >= 6,
        <Func as System<C, (Ret, UrlPart, UrlPart, UrlPart, UrlPart, UrlPart, UrlPart)>>::runs(&f, ctx, captures, r, rest),
    ensures
        exists|ret: Ret| #[trigger] call_ensures(f, (UrlPart(captures[0]), UrlPart(captures[1]), UrlPart(captures[2]), UrlPart(captures[3]), UrlPart(captures[4]), UrlPart(captures[5])), ret) && ret.acts_as(r),
        rest == captures.skip(6),
{
}

/// Parameter-order law: a system of 7 url-part parameters, run on at least as many url parts,
/// resolves its parameters left to right: the first parameter gets the first part, the next
/// the next, and so on, and the parts after them are left.
pub proof fn lemma_parts_in_order_7<C, Ret: IntoAction, Func: Fn(UrlPart, UrlPart, UrlPart, UrlPart, UrlPart, UrlPart, UrlPart) -> Ret>(
    f: Func,
    ctx: &RequestState<C>,
    captures: Seq<String>,
    r: Action,
    rest: Seq<String>,
)
    requires
        captures.len() >= 7,
        <Func as System<C, (Ret, UrlPart, UrlPart, UrlPart, UrlPart, UrlPart, UrlPart, UrlPart)>>::runs(&f, ctx, captures, r, rest),
    ensures
        exists|ret: Ret| #[trigger] call_ensures(f, (UrlPart(captures[0]), UrlPart(captures[1]), UrlPart(captures[2]), UrlPart(captures[3]), UrlPart(captures[4]), UrlPart(captures[5]), UrlPart(captures[6])), ret) && ret.acts_as(r),
        rest == captures.skip(7),
{
}

/// Parameter-order law: a system of 8 url-part parameters, run on at least as many url parts,
/// resolves its parameters left to right: the first parameter gets the first part, the next
/// the next, and so on, and the parts after them are left.
pub proof fn lemma_parts_in_order_8<C, Ret: IntoAction, Func: Fn(UrlPart, UrlPart, UrlPart, UrlPart, UrlPart, UrlPart, UrlPart, UrlPart) -> Ret>(
    f: Func,
    ctx: &RequestState<C>,
    captures: Seq<String>,
    r: Action,
    rest: Seq<String>,
)
    requires
        captures.len() >= 8,
        <Func as System<C, (Ret, UrlPart, UrlPart, UrlPart, UrlPart, UrlPart, UrlPart, UrlPart, UrlPart)>>::runs(&f, ctx, captures, r, rest),
    ensures
        exists|ret: Ret| #[trigger] call_ensures(f, (UrlPart(captures[0]), UrlPart(captures[1]), UrlPart(captures[2]), UrlPart(captures[3]), UrlPart(captures[4]), UrlPart(captures[5]), UrlPart(captures[6]), UrlPart(captures[7])), ret) && ret.acts_as(r),
        rest == captures.skip(8),
{
}

/// Parameter-order law: a system of 9 url-part parameters, run on at least as many url parts,
/// resolves its parameters left to right: the first parameter gets the first part, the next
/// the next, and so on, and the parts after them are left.
pub proof fn lemma_parts_in_order_9<C, Ret: IntoAction, Func: Fn(UrlPart, UrlPart, UrlPart, UrlPart, UrlPart, UrlPart, UrlPart, UrlPart, UrlPart) -> Ret>(
    f: Func,
    ctx: &RequestState<C>,
    captures: Seq<String>,
    r: Action,
    rest: Seq<String>,
)
    requires
        captures.len() >= 9,
        <Func as System<C, (Ret, UrlPart, UrlPart, UrlPart, UrlPart, UrlPart, UrlPart, UrlPart, UrlPart, UrlPart)>>::runs(&f, ctx, captures, r, rest),
    ensures
        exists|ret: Ret| #[trigger] call_ensures(f, (UrlPart(captures[0]), UrlPart(captures[1]), UrlPart(captures[2]), UrlPart(captures[3]), UrlPart(captures[4]), UrlPart(captures[5]), UrlPart(captures[6]), UrlPart(captures[7]), UrlPart(captures[8])), ret) && ret.acts_as(r),
        rest == captures.skip(9),
{
}

/// Parameter-order law: a system of 10 url-part parameters, run on at least as many url parts,
/// resolves its parameters left to right: the first parameter gets the first part, the next
/// the next, and so on, and the parts after them are left.
pub proof fn lemma_parts_in_order_10<C, Ret: IntoAction, Func: Fn(UrlPart, UrlPart, UrlPart, UrlPart, UrlPart, UrlPart, UrlPart, UrlPart, UrlPart, UrlPart) -> Ret>(
    f: Func,
    ctx: &RequestState<C>,
    captures: Seq<String>,
    r: Action,
    rest: Seq<String>,
)
    requires
        captures.len() >= 10,
        <Func as System<C, (Ret, UrlPart, UrlPart, UrlPart, UrlPart, UrlPart, UrlPart, UrlPart, UrlPart, UrlPart, UrlPart)>>::runs(&f, ctx, captures, r, rest),
    ensures
        exists|ret: Ret| #[trigger] call_ensures(f, (UrlPart(captures[0]), UrlPart(captures[1]), UrlPart(captures[2]), UrlPart(captures[3]), UrlPart(captures[4]), UrlPart(captures[5]), UrlPart(captures[6]), UrlPart(captures[7]), UrlPart(captures[8]), UrlPart(captures[9])), ret) && ret.acts_as(r),
        rest == captures.skip(10),
{
}

/// Parameter-order law: a system of 11 url-part parameters, run on at least as many url parts,
/// resolves its parameters left to right: the first parameter gets the first part, the next
/// the next, and so on, and the parts after them are left.
pub proof fn lemma_parts_in_order_11<C, Ret: IntoAction, Func: Fn(UrlPart, UrlPart, UrlPart, UrlPart, UrlPart, UrlPart, UrlPart, UrlPart, UrlPart, UrlPart, UrlPart) -> Ret>(
    f: Func,
    ctx: &RequestState<C>,
    captures: Seq<String>,
    r: Action,
    rest: Seq<String>,
)
    requires
        captures.len() >= 11,
        <Func as System<C, (Ret, UrlPart, UrlPart, UrlPart, UrlPart, UrlPart, UrlPart, UrlPart, UrlPart, UrlPart, UrlPart, UrlPart)>>::runs(&f, ctx, captures, r, rest),
    ensures
        exists|ret: Ret| #[trigger] call_ensures(f, (UrlPart(captures[0]), UrlPart(captures[1]), UrlPart(captures[2]), UrlPart(captures[3]), UrlPart(captures[4]), UrlPart(captures[5]), UrlPart(captures[6]), UrlPart(captures[7]), UrlPart(captures[8]), UrlPart(captures[9]), UrlPart(captures[10])), ret) && ret.acts_as(r),
        rest == captures.skip(11),
{
}

/// Parameter-order law: a system of 12 url-part parameters, run on at least as many url parts,
/// resolves its parameters left to right: the first parameter gets the first part, the next
/// the next, and so on, and the parts after them are left.
pub proof fn lemma_parts_in_order_12<C, Ret: IntoAction, Func: Fn(UrlPart, UrlPart, UrlPart, UrlPart, UrlPart, UrlPart, UrlPart, UrlPart, UrlPart, UrlPart, UrlPart, UrlPart) -> Ret>(
    f: Func,
    ctx: &RequestState<C>,
    captures: Seq<String>,
    r: Action,
    rest: Seq<String>,
)
    requires
        captures.len() >= 12,
        <Func as System<C, (Ret, UrlPart, UrlPart, UrlPart, UrlPart, UrlPart, UrlPart, UrlPart, UrlPart, UrlPart, UrlPart, UrlPart, UrlPart)>>::runs(&f, ctx, captures, r, rest),
    ensures
        exists|ret: Ret| #[trigger] call_ensures(f, (UrlPart(captures[0]), UrlPart(captures[1]), UrlPart(captures[2]), UrlPart(captures[3]), UrlPart(captures[4]), UrlPart(captures[5]), UrlPart(captures[6]), UrlPart(captures[7]), UrlPart(captures[8]), UrlPart(captures[9]), UrlPart(captures[10]), UrlPart(captures[11])), ret) && ret.acts_as(r),
        rest == captures.skip(12),
{
}

/// Parameter-order law: a system of 13 url-part parameters, run on at least as many url parts,
/// resolves its parameters left to right: the first parameter gets the first part, the next
/// the next, and so on, and the parts after them are left.
pub proof fn lemma_parts_in_order_13<C, Ret: IntoAction, Func: Fn(UrlPart, UrlPart, UrlPart, UrlPart, UrlPart, UrlPart, UrlPart, UrlPart, UrlPart, UrlPart, UrlPart, UrlPart, UrlPart) -> Ret>(
    f: Func,
    ctx: &RequestState<C>,
    captures: Seq<String>,
    r: Action,
    rest: Seq<String>,
)
    requires
        captures.len() >= 13,
        <Func as System<C, (Ret, UrlPart, UrlPart, UrlPart, UrlPart, UrlPart, UrlPart, UrlPart, UrlPart, UrlPart, UrlPart, UrlPart, UrlPart, UrlPart)>>::runs(&f, ctx, captures, r, rest),
    ensures
        exists|ret: Ret| #[trigger] call_ensures(f, (UrlPart(captures[0]), UrlPart(captures[1]), UrlPart(captures[2]), UrlPart(captures[3]), UrlPart(captures[4]), UrlPart(captures[5]), UrlPart(captures[6]), UrlPart(captures[7]), UrlPart(captures[8]), UrlPart(captures[9]), UrlPart(captures[10]), UrlPart(captures[11]), UrlPart(captures[12])), ret) && ret.acts_as(r),
        rest == captures.skip(13),
{
}

/// Parameter-order law: a system of 14 url-part parameters, run on at least as many url parts,
/// resolves its parameters left to right: the first parameter gets the first part, the next
/// the next, and so on, and the parts after them are left.
pub proof fn lemma_parts_in_order_14<C, Ret: IntoAction, Func: Fn(UrlPart, UrlPart, UrlPart, UrlPart, UrlPart, UrlPart, UrlPart, UrlPart, UrlPart, UrlPart, UrlPart, UrlPart, UrlPart, UrlPart) -> Ret>(
    f: Func,
    ctx: &RequestState<C>,
    captures: Seq<String>,
    r: Action,
    rest: Seq<String>,
)
    requires
        captures.len() >= 14,
        <Func as System<C, (Ret, UrlPart, UrlPart, UrlPart, UrlPart, UrlPart, UrlPart, UrlPart, UrlPart, UrlPart, UrlPart, UrlPart, UrlPart, UrlPart, UrlPart)>>::runs(&f, ctx, captures, r, rest),
    ensures
        exists|ret: Ret| #[trigger] call_ensures(f, (UrlPart(captures[0]), UrlPart(captures[1]), UrlPart(captures[2]), UrlPart(captures[3]), UrlPart(captures[4]), UrlPart(captures[5]), UrlPart(captures[6]), UrlPart(captures[7]), UrlPart(captures[8]), UrlPart(captures[9]), UrlPart(captures[10]), UrlPart(captures[11]), UrlPart(captures[12]), UrlPart(captures[13])), ret) && ret.acts_as(r),
        rest == captures.skip(14),
{
}

/// Parameter-order law: a system of 15 url-part parameters, run on at least as many url parts,
/// resolves its parameters left to right: the first parameter gets the first part, the next
/// the next, and so on, and the parts after them are left.
#[verifier::rlimit(100)]
pub proof fn lemma_parts_in_order_15<C, Ret: IntoAction, Func: Fn(UrlPart, UrlPart, UrlPart, UrlPart, UrlPart, UrlPart, UrlPart, UrlPart, UrlPart, UrlPart, UrlPart, UrlPart, UrlPart, UrlPart, UrlPart) -> Ret>(
    f: Func,
    ctx: &RequestState<C>,
    captures: Seq<String>,
    r: Action,
    rest: Seq<String>,
)
    requires
        captures.len() >= 15,
        <Func as System<C, (Ret, UrlPart, UrlPart, UrlPart, UrlPart, UrlPart, UrlPart, UrlPart, UrlPart, UrlPart, UrlPart, UrlPart, UrlPart, UrlPart, UrlPart, UrlPart)>>::runs(&f, ctx, captures, r, rest),
    ensures
        exists|ret: Ret| #[trigger] call_ensures(f, (UrlPart(captures[0]), UrlPart(captures[1]), UrlPart(captures[2]), UrlPart(captures[3]), UrlPart(captures[4]), UrlPart(captures[5]), UrlPart(captures[6]), UrlPart(captures[7]), UrlPart(captures[8]), UrlPart(captures[9]), UrlPart(captures[10]), UrlPart(captures[11]), UrlPart(captures[12]), UrlPart(captures[13]), UrlPart(captures[14])), ret) && ret.acts_as(r),
        rest == captures.skip(15),
{
}

/// Parameter-order law: a system of 16 url-part parameters, run on at least as many url parts,
/// resolves its parameters left to right: the first parameter gets the first part, the next
/// the next, and so on, and the parts after them are left.
#[verifier::rlimit(100)]
pub proof fn lemma_parts_in_order_16<C, Ret: IntoAction, Func: Fn(UrlPart, UrlPart, UrlPart, UrlPart, UrlPart, UrlPart, UrlPart, UrlPart, UrlPart, UrlPart, UrlPart, UrlPart, UrlPart, UrlPart, UrlPart, UrlPart) -> Ret>(
    f: Func,
    ctx: &RequestState<C>,
    captures: Seq<String>,
    r: Action,
    rest: Seq<String>,
)
    requires
        captures.len() >= 16,
        <Func as System<C, (Ret, UrlPart, UrlPart, UrlPart, UrlPart, UrlPart, UrlPart, UrlPart, UrlPart, UrlPart, UrlPart, UrlPart, UrlPart, UrlPart, UrlPart, UrlPart, UrlPart)>>::runs(&f, ctx, captures, r, rest),
    ensures
        exists|ret: Ret| #[trigger] call_ensures(f, (UrlPart(captures[0]), UrlPart(captures[1]), UrlPart(captures[2]), UrlPart(captures[3]), UrlPart(captures[4]), UrlPart(captures[5]), UrlPart(captures[6]), UrlPart(captures[7]), UrlPart(captures[8]), UrlPart(captures[9]), UrlPart(captures[10]), UrlPart(captures[11]), UrlPart(captures[12]), UrlPart(captures[13]), UrlPart(captures[14]), UrlPart(captures[15])), ret) && ret.acts_as(r),
        rest == captures.skip(16),
{
}

/// Parameter-order law: a system of 17 url-part parameters, run on at least as many url parts,
/// resolves its parameters left to right: the first parameter gets the first part, the next
/// the next, and so on, and the parts after them are left.
#[verifier::rlimit(100)]
pub proof fn lemma_parts_in_order_17<C, Ret: IntoAction, Func: Fn(UrlPart, UrlPart, UrlPart, UrlPart, UrlPart, UrlPart, UrlPart, UrlPart, UrlPart, UrlPart, UrlPart, UrlPart, UrlPart, UrlPart, UrlPart, UrlPart, UrlPart) -> Ret>(
    f: Func,
    ctx: &RequestState<C>,
    captures: Seq<String>,
    r: Action,
    rest: Seq<String>,
)
    requires
        captures.len() >= 17,
        <Func as System<C, (Ret, UrlPart, UrlPart, UrlPart, UrlPart, UrlPart, UrlPart, UrlPart, UrlPart, UrlPart, UrlPart, UrlPart, UrlPart, UrlPart, UrlPart, UrlPart, UrlPart, UrlPart)>>::runs(&f, ctx, captures, r, rest),
    ensures
        exists|ret: Ret| #[trigger] call_ensures(f, (UrlPart(captures[0]), UrlPart(captures[1]), UrlPart(captures[2]), UrlPart(captures[3]), UrlPart(captures[4]), UrlPart(captures[5]), UrlPart(captures[6]), UrlPart(captures[7]), UrlPart(captures[8]), UrlPart(captures[9]), UrlPart(captures[10]), UrlPart(captures[11]), UrlPart(captures[12]), UrlPart(captures[13]), UrlPart(captures[14]), UrlPart(captures[15]), UrlPart(captures[16])), ret) && ret.acts_as(r),
        rest == captures.skip(17),
{
}

/// Parameter-order law: a system of 18 url-part parameters, run on at least as many url parts,
/// resolves its parameters left to right: the first parameter gets the first part, the next
/// the next, and so on, and the parts after them are left.
#[verifier::rlimit(100)]
pub proof fn lemma_parts_in_order_18<C, Ret: IntoAction, Func: Fn(UrlPart, UrlPart, UrlPart, UrlPart, UrlPart, UrlPart, UrlPart, UrlPart, UrlPart, UrlPart, UrlPart, UrlPart, UrlPart, UrlPart, UrlPart, UrlPart, UrlPart, UrlPart) -> Ret>(
    f: Func,
    ctx: &RequestState<C>,
    captures: Seq<String>,
    r: Action,
    rest: Seq<String>,
)
    requires
        captures.len() >= 18,
        <Func as System<C, (Ret, UrlPart, UrlPart, UrlPart, UrlPart, UrlPart, UrlPart, UrlPart, UrlPart, UrlPart, UrlPart, UrlPart, UrlPart, UrlPart, UrlPart, UrlPart, UrlPart, UrlPart, UrlPart)>>::runs(&f, ctx, captures, r, rest),
    ensures
        exists|ret: Ret| #[trigger] call_ensures(f, (UrlPart(captures[0]), UrlPart(captures[1]), UrlPart(captures[2]), UrlPart(captures[3]), UrlPart(captures[4]), UrlPart(captures[5]), UrlPart(captures[6]), UrlPart(captures[7]), UrlPart(captures[8]), UrlPart(captures[9]), UrlPart(captures[10]), UrlPart(captures[11]), UrlPart(captures[12]), UrlPart(captures[13]), UrlPart(captures[14]), UrlPart(captures[15]), UrlPart(captures[16]), UrlPart(captures[17])), ret) && ret.acts_as(r),
        rest == captures.skip(18),
{
}

/// Parameter-order law: a system of 19 url-part parameters, run on at least as many url parts,
/// resolves its parameters left to right: the first parameter gets the first part, the next
/// the next, and so on, and the parts after them are left.
#[verifier::rlimit(100)]
pub proof fn lemma_parts_in_order_19<C, Ret: IntoAction, Func: Fn(UrlPart, UrlPart, UrlPart, UrlPart, UrlPart, UrlPart, UrlPart, UrlPart, UrlPart, UrlPart, UrlPart, UrlPart, UrlPart, UrlPart, UrlPart, UrlPart, UrlPart, UrlPart, UrlPart) -> Ret>(
    f: Func,
    ctx: &RequestState<C>,
    captures: Seq<String>,
    r: Action,
    rest: Seq<String>,
)
    requires
        captures.len() >= 19,
        <Func as System<C, (Ret, UrlPart, UrlPart, UrlPart, UrlPart, UrlPart, UrlPart, UrlPart, UrlPart, UrlPart, UrlPart, UrlPart, UrlPart, UrlPart, UrlPart, UrlPart, UrlPart, UrlPart, UrlPart, UrlPart)>>::runs(&f, ctx, captures, r, rest),
    ensures
        exists|ret: Ret| #[trigger] call_ensures(f, (UrlPart(captures[0]), UrlPart(captures[1]), UrlPart(captures[2]), UrlPart(captures[3]), UrlPart(captures[4]), UrlPart(captures[5]), UrlPart(captures[6]), UrlPart(captures[7]), UrlPart(captures[8]), UrlPart(captures[9]), UrlPart(captures[10]), UrlPart(captures[11]), UrlPart(captures[12]), UrlPart(captures[13]), UrlPart(captures[14]), UrlPart(captures[15]), UrlPart(captures[16]), UrlPart(captures[17]), UrlPart(captures[18])), ret) && ret.acts_as(r),
        rest == captures.skip(19),
{
}

/// Parameter-order law: a system of 20 url-part parameters, run on at least as many url parts,
/// resolves its parameters left to right: the first parameter gets the first part, the next
/// the next, and so on, and the parts after them are left.
#[verifier::rlimit(100)]
pub proof fn lemma_parts_in_order_20<C, Ret: IntoAction, Func: Fn(UrlPart, UrlPart, UrlPart, UrlPart, UrlPart, UrlPart, UrlPart, UrlPart, UrlPart, UrlPart, UrlPart, UrlPart, UrlPart, UrlPart, UrlPart, UrlPart, UrlPart, UrlPart, UrlPart, UrlPart) -> Ret>(
    f: Func,
    ctx: &RequestState<C>,
    captures: Seq<String>,
    r: Action,
    rest: Seq<String>,
)
    requires
        captures.len() >= 20,
        <Func as System<C, (Ret, UrlPart, UrlPart, UrlPart, UrlPart, UrlPart, UrlPart, UrlPart, UrlPart, UrlPart, UrlPart, UrlPart, UrlPart, UrlPart, UrlPart, UrlPart, UrlPart, UrlPart, UrlPart, UrlPart, UrlPart)>>::runs(&f, ctx, captures, r, rest),
    ensures
        exists|ret: Ret| #[trigger] call_ensures(f, (UrlPart(captures[0]), UrlPart(captures[1]), UrlPart(captures[2]), UrlPart(captures[3]), UrlPart(captures[4]), UrlPart(captures[5]), UrlPart(captures[6]), UrlPart(captures[7]), UrlPart(captures[8]), UrlPart(captures[9]), UrlPart(captures[10]), UrlPart(captures[11]), UrlPart(captures[12]), UrlPart(captures[13]), UrlPart(captures[14]), UrlPart(captures[15]), UrlPart(captures[16]), UrlPart(captures[17]), UrlPart(captures[18]), UrlPart(captures[19])), ret) && ret.acts_as(r),
        rest == captures.skip(20),
{
}

/// Parameter-order law: a system of 21 url-part parameters, run on at least as many url parts,
/// resolves its parameters left to right: the first parameter gets the first part, the next
/// the next, and so on, and the parts after them are left.
#[verifier::rlimit(100)]
pub proof fn lemma_parts_in_order_21<C, Ret: IntoAction, Func: Fn(UrlPart, UrlPart, UrlPart, UrlPart, UrlPart, UrlPart, UrlPart, UrlPart, UrlPart, UrlPart, UrlPart, UrlPart, UrlPart, UrlPart, UrlPart, UrlPart, UrlPart, UrlPart, UrlPart, UrlPart, UrlPart) -> Ret>(
    f: Func,
    ctx: &RequestState<C>,
    captures: Seq<String>,
    r: Action,
    rest: Seq<String>,
)
    requires
        captures.len() >= 21,
        <Func as System<C, (Ret, UrlPart, UrlPart, UrlPart, UrlPart, UrlPart, UrlPart, UrlPart, UrlPart, UrlPart, UrlPart, UrlPart, UrlPart, UrlPart, UrlPart, UrlPart, UrlPart, UrlPart, UrlPart, UrlPart, UrlPart, UrlPart)>>::runs(&f, ctx, captures, r, rest),
    ensures
        exists|ret: Ret| #[trigger] call_ensures(f, (UrlPart(captures[0]), UrlPart(captures[1]), UrlPart(captures[2]), UrlPart(captures[3]), UrlPart(captures[4]), UrlPart(captures[5]), UrlPart(captures[6]), UrlPart(captures[7]), UrlPart(captures[8]), UrlPart(captures[9]), UrlPart(captures[10]), UrlPart(captures[11]), UrlPart(captures[12]), UrlPart(captures[13]), UrlPart(captures[14]), UrlPart(captures[15]), UrlPart(captures[16]), UrlPart(captures[17]), UrlPart(captures[18]), UrlPart(captures[19]), UrlPart(captures[20])), ret) && ret.acts_as(r),
        rest == captures.skip(21),
{
}

/// Parameter-order law: a system of 22 url-part parameters, run on at least as many url parts,
/// resolves its parameters left to right: the first parameter gets the first part, the next
/// the next, and so on, and the parts after them are left.
#[verifier::rlimit(100)]
pub proof fn lemma_parts_in_order_22<C, Ret: IntoAction, Func: Fn(UrlPart, UrlPart, UrlPart, UrlPart, UrlPart, UrlPart, UrlPart, UrlPart, UrlPart, UrlPart, UrlPart, UrlPart, UrlPart, UrlPart, UrlPart, UrlPart, UrlPart, UrlPart, UrlPart, UrlPart, UrlPart, UrlPart) -> Ret>(
    f: Func,
    ctx: &RequestState<C>,
    captures: Seq<String>,
    r: Action,
    rest: Seq<String>,
)
    requires
        captures.len() >= 22,
        <Func as System<C, (Ret, UrlPart, UrlPart, UrlPart, UrlPart, UrlPart, UrlPart, UrlPart, UrlPart, UrlPart, UrlPart, UrlPart, UrlPart, UrlPart, UrlPart, UrlPart, UrlPart, UrlPart, UrlPart, UrlPart, UrlPart, UrlPart, UrlPart)>>::runs(&f, ctx, captures, r, rest),
    ensures
        exists|ret: Ret| #[trigger] call_ensures(f, (UrlPart(captures[0]), UrlPart(captures[1]), UrlPart(captures[2]), UrlPart(captures[3]), UrlPart(captures[4]), UrlPart(captures[5]), UrlPart(captures[6]), UrlPart(captures[7]), UrlPart(captures[8]), UrlPart(captures[9]), UrlPart(captures[10]), UrlPart(captures[11]), UrlPart(captures[12]), UrlPart(captures[13]), UrlPart(captures[14]), UrlPart(captures[15]), UrlPart(captures[16]), UrlPart(captures[17]), UrlPart(captures[18]), UrlPart(captures[19]), UrlPart(captures[20]), UrlPart(captures[21])), ret) && ret.acts_as(r),
        rest == captures.skip(22),
{
}

/// Parameter-order law: a system of 23 url-part parameters, run on at least as many url parts,
/// resolves its parameters left to right: the first parameter gets the first part, the next
/// the next, and so on, and the parts after them are left.
#[verifier::rlimit(100)]
pub proof fn lemma_parts_in_order_23<C, Ret: IntoAction, Func: Fn(UrlPart, UrlPart, UrlPart, UrlPart, UrlPart, UrlPart, UrlPart, UrlPart, UrlPart, UrlPart, UrlPart, UrlPart, UrlPart, UrlPart, UrlPart, UrlPart, UrlPart, UrlPart, UrlPart, UrlPart, UrlPart, UrlPart, UrlPart) -> Ret>(
    f: Func,
    ctx: &RequestState<C>,
    captures: Seq<String>,
    r: Action,
    rest: Seq<String>,
)
    requires
        captures.len() >= 23,
        <Func as System<C, (Ret, UrlPart, UrlPart, UrlPart, UrlPart, UrlPart, UrlPart, UrlPart, UrlPart, UrlPart, UrlPart, UrlPart, UrlPart, UrlPart, UrlPart, UrlPart, UrlPart, UrlPart, UrlPart, UrlPart, UrlPart, UrlPart, UrlPart, UrlPart)>>::runs(&f, ctx, captures, r, rest),
    ensures
        exists|ret: Ret| #[trigger] call_ensures(f, (UrlPart(captures[0]), UrlPart(captures[1]), UrlPart(captures[2]), UrlPart(captures[3]), UrlPart(captures[4]), UrlPart(captures[5]), UrlPart(captures[6]), UrlPart(captures[7]), UrlPart(captures[8]), UrlPart(captures[9]), UrlPart(captures[10]), UrlPart(captures[11]), UrlPart(captures[12]), UrlPart(captures[13]), UrlPart(captures[14]), UrlPart(captures[15]), UrlPart(captures[16]), UrlPart(captures[17]), UrlPart(captures[18]), UrlPart(captures[19]), UrlPart(captures[20]), UrlPart(captures[21]), UrlPart(captures[22])), ret) && ret.acts_as(r),
        rest == captures.skip(23),
{
}

/// Parameter-order law: a system of 24 url-part parameters, run on at least as many url parts,
/// resolves its parameters left to right: the first parameter gets the first part, the next
/// the next, and so on, and the parts after them are left.
#[verifier::rlimit(100)]
pub proof fn lemma_parts_in_order_24<C, Ret: IntoAction, Func: Fn(UrlPart, UrlPart, UrlPart, UrlPart, UrlPart, UrlPart, UrlPart, UrlPart, UrlPart, UrlPart, UrlPart, UrlPart, UrlPart, UrlPart, UrlPart, UrlPart, UrlPart, UrlPart, UrlPart, UrlPart, UrlPart, UrlPart, UrlPart, UrlPart) -> Ret>(
    f: Func,
    ctx: &RequestState<C>,
    captures: Seq<String>,
    r: Action,
    rest: Seq<String>,
)
    requires
        captures.len() >= 24,
        <Func as System<C, (Ret, UrlPart, UrlPart, UrlPart, UrlPart, UrlPart, UrlPart, UrlPart, UrlPart, UrlPart, UrlPart, UrlPart, UrlPart, UrlPart, UrlPart, UrlPart, UrlPart, UrlPart, UrlPart, UrlPart, UrlPart, UrlPart, UrlPart, UrlPart, UrlPart)>>::runs(&f, ctx, captures, r, rest),
    ensures
        exists|ret: Ret| #[trigger] call_ensures(f, (UrlPart(captures[0]), UrlPart(captures[1]), UrlPart(captures[2]), UrlPart(captures[3]), UrlPart(captures[4]), UrlPart(captures[5]), UrlPart(captures[6]), UrlPart(captures[7]), UrlPart(captures[8]), UrlPart(captures[9]), UrlPart(captures[10]), UrlPart(captures[11]), UrlPart(captures[12]), UrlPart(captures[13]), UrlPart(captures[14]), UrlPart(captures[15]), UrlPart(captures[16]), UrlPart(captures[17]), UrlPart(captures[18]), UrlPart(captures[19]), UrlPart(captures[20]), UrlPart(captures[21]), UrlPart(captures[22]), UrlPart(captures[23])), ret) && ret.acts_as(r),
        rest == captures.skip(24),
{
}

/// Parameter-order law: a system of 25 url-part parameters, run on at least as many url parts,
/// resolves its parameters left to right: the first parameter gets the first part, the next
/// the next, and so on, and the parts after them are left.
#[verifier::rlimit(100)]
pub proof fn lemma_parts_in_order_25<C, Ret: IntoAction, Func: Fn(UrlPart, UrlPart, UrlPart, UrlPart, UrlPart, UrlPart, UrlPart, UrlPart, UrlPart, UrlPart, UrlPart, UrlPart, UrlPart, UrlPart, UrlPart, UrlPart, UrlPart, UrlPart, UrlPart, UrlPart, UrlPart, UrlPart, UrlPart, UrlPart, UrlPart) -> Ret>(
    f: Func,
    ctx: &RequestState<C>,
    captures: Seq<String>,
    r: Action,
    rest: Seq<String>,
)
    requires
        captures.len() >= 25,
        <Func as System<C, (Ret, UrlPart, UrlPart, UrlPart, UrlPart, UrlPart, UrlPart, UrlPart, UrlPart, UrlPart, UrlPart, UrlPart, UrlPart, UrlPart, UrlPart, UrlPart, UrlPart, UrlPart, UrlPart, UrlPart, UrlPart, UrlPart, UrlPart, UrlPart, UrlPart, UrlPart)>>::runs(&f, ctx, captures, r, rest),
    ensures
        exists|ret: Ret| #[trigger] call_ensures(f, (UrlPart(captures[0]), UrlPart(captures[1]), UrlPart(captures[2]), UrlPart(captures[3]), UrlPart(captures[4]), UrlPart(captures[5]), UrlPart(captures[6]), UrlPart(captures[7]), UrlPart(captures[8]), UrlPart(captures[9]), UrlPart(captures[10]), UrlPart(captures[11]), UrlPart(captures[12]), UrlPart(captures[13]), UrlPart(captures[14]), UrlPart(captures[15]), UrlPart(captures[16]), UrlPart(captures[17]), UrlPart(captures[18]), UrlPart(captures[19]), UrlPart(captures[20]), UrlPart(captures[21]), UrlPart(captures[22]), UrlPart(captures[23]), UrlPart(captures[24])), ret) && ret.acts_as(r),
        rest == captures.skip(25),
{
}

/// Parameter-order law: a system of 26 url-part parameters, run on at least as many url parts,
/// resolves its parameters left to right: the first parameter gets the first part, the next
/// the next, and so on, and the parts after them are left.
#[verifier::rlimit(100)]
pub proof fn lemma_parts_in_order_26<C, Ret: IntoAction, Func: Fn(UrlPart, UrlPart, UrlPart, UrlPart, UrlPart, UrlPart, UrlPart, UrlPart, UrlPart, UrlPart, UrlPart, UrlPart, UrlPart, UrlPart, UrlPart, UrlPart, UrlPart, UrlPart, UrlPart, UrlPart, UrlPart, UrlPart, UrlPart, UrlPart, UrlPart, UrlPart) -> Ret>(
    f: Func,
    ctx: &RequestState<C>,
    captures: Seq<String>,
    r: Action,
    rest: Seq<String>,
)
    requires
        captures.len() >= 26,
        <Func as System<C, (Ret, UrlPart, UrlPart, UrlPart, UrlPart, UrlPart, UrlPart, UrlPart, UrlPart, UrlPart, UrlPart, UrlPart, UrlPart, UrlPart, UrlPart, UrlPart, UrlPart, UrlPart, UrlPart, UrlPart, UrlPart, UrlPart, UrlPart, UrlPart, UrlPart, UrlPart, UrlPart)>>::runs(&f, ctx, captures, r, rest),
    ensures
        exists|ret: Ret| #[trigger] call_ensures(f, (UrlPart(captures[0]), UrlPart(captures[1]), UrlPart(captures[2]), UrlPart(captures[3]), UrlPart(captures[4]), UrlPart(captures[5]), UrlPart(captures[6]), UrlPart(captures[7]), UrlPart(captures[8]), UrlPart(captures[9]), UrlPart(captures[10]), UrlPart(captures[11]), UrlPart(captures[12]), UrlPart(captures[13]), UrlPart(captures[14]), UrlPart(captures[15]), UrlPart(captures[16]), UrlPart(captures[17]), UrlPart(captures[18]), UrlPart(captures[19]), UrlPart(captures[20]), UrlPart(captures[21]), UrlPart(captures[22]), UrlPart(captures[23]), UrlPart(captures[24]), UrlPart(captures[25])), ret) && ret.acts_as(r),
        rest == captures.skip(26),
{
}

} // verus!
