//! Effects: named scripts, their definitions in the show file, and the
//! engines that keep a runner for each registered effect.
use vstd::prelude::*;

use std::collections::HashMap;

verus! {

broadcast use vstd::std_specs::hash::group_hash_axioms;

/// The number of an effect.
pub type EffectId = u32;

/// An effect: a name and the script that runs it.
#[derive(Debug, Clone)]
pub struct Effect {
    name: String,
    script: String,
}

impl Effect {
    /// The effect's name.
    pub closed spec fn spec_name(self) -> Seq<char> {
        self.name@
    }

    /// The effect's script.
    pub closed spec fn spec_script(self) -> Seq<char> {
        self.script@
    }

    /// An effect with the given name and script.
    pub fn new(name: String, script: String) -> (r: Effect)
        ensures
            r.spec_name() == name@,
            r.spec_script() == script@,
    {
        Effect { name, script }
    }

    /// The effect's name.
    pub fn name(&self) -> (r: &str)
        ensures
            r@ == self.spec_name(),
    {
        self.name.as_str()
    }

    /// The effect's script.
    pub fn script(&self) -> (r: &str)
        ensures
            r@ == self.spec_script(),
    {
        self.script.as_str()
    }

    /// A copy of this effect.
    pub fn duplicate(&self) -> (r: Effect)
        ensures
            r == *self,
    {
        Effect { name: self.name.clone(), script: self.script.clone() }
    }
}

/// Where the show file keeps the scripts of effects, relative to its folder.
pub const EFFECT_SCRIPTS_RELATIVE_PATH: &'static str = "objects/effects/";

/// An effect as the show file defines it: its name and the path of its
/// script.
#[derive(Debug, Clone)]
pub struct EffectDefinition {
    pub name: String,
    pub script_path: String,
}

impl EffectDefinition {
    /// A definition with the given name and script path.
    pub fn new(name: String, script_path: String) -> (r: EffectDefinition)
        ensures
            r.name == name,
            r.script_path == script_path,
    {
        EffectDefinition { name, script_path }
    }

    /// The script's path relative to the show file's folder.
    pub fn script_location(&self) -> (r: String)
        ensures
            r@ == "objects/effects/"@ + self.script_path@,
    {
        let mut s = String::from_str(EFFECT_SCRIPTS_RELATIVE_PATH);
        s.append(self.script_path.as_str());
        s
    }

    /// The effect this definition makes, given the text of its script.
    pub fn effect(&self, script: String) -> (r: Effect)
        ensures
            r.spec_name() == self.name@,
            r.spec_script() == script@,
    {
        Effect::new(self.name.clone(), script)
    }
}

/// Why an effect could not be run.
#[derive(Debug, Clone, Copy, PartialEq, Eq, Structural)]
pub enum EffectError {
    /// No effect is registered under the number.
    NotRegistered,
}

/// Runs one effect.
#[derive(Debug, Clone)]
pub struct EffectRunner {
    pub effect: Effect,
    pub running: bool,
}

impl EffectRunner {
    /// A runner for the effect, not started.
    pub fn new(effect: Effect) -> (r: Result<EffectRunner, EffectError>)
        ensures
            r matches Ok(runner) && runner.effect == effect && !runner.running,
    {
        Ok(EffectRunner { effect, running: false })
    }

    /// Starts the runner.
    pub fn start(&mut self) -> (r: Result<(), EffectError>)
        ensures
            r is Ok,
            final(self).running,
            final(self).effect == old(self).effect,
    {
        self.running = true;
        Ok(())
    }

    /// Stops the runner.
    pub fn stop(&mut self) -> (r: Result<(), EffectError>)
        ensures
            r is Ok,
            !final(self).running,
            final(self).effect == old(self).effect,
    {
        self.running = false;
        Ok(())
    }
}

/// Keeps a started runner for each registered effect.
#[derive(Debug)]
pub struct EffectEngine {
    pub runners: HashMap<EffectId, EffectRunner>,
}

impl EffectEngine {
    /// An engine with a started runner for each of the effects, registered in
    /// order (a later effect under the same number replaces an earlier one).
    pub fn new(effects: Vec<(EffectId, Effect)>) -> (r: EffectEngine)
        ensures
            r.runners@.dom() == effects@.map_values(|e: (EffectId, Effect)| e.0).to_set(),
            forall|id: EffectId| #[trigger] r.runners@.contains_key(id) ==> r.runners@[id].running,
            forall|id: EffectId| #[trigger] r.runners@.contains_key(id) ==> r.runners@[id].effect == registry_of(
                effects@,
            )[id],
    {
        let mut this = EffectEngine { runners: HashMap::new() };
        let n = effects.len();
        let ghost keys = effects@.map_values(|e: (EffectId, Effect)| e.0);
        for i in 0..n
            invariant
                n == effects@.len(),
                keys == effects@.map_values(|e: (EffectId, Effect)| e.0),
                this.runners@.dom() == keys.subrange(0, i as int).to_set(),
                forall|id: EffectId| #[trigger] this.runners@.contains_key(id) ==> this.runners@[id].running,
                forall|id: EffectId| #[trigger] this.runners@.contains_key(id) ==> this.runners@[id].effect
                    == registry_of(effects@.subrange(0, i as int))[id],
        {
            let (id, effect) = (effects[i].0, effects[i].1.duplicate());
            let _ = this.register_effect(id, effect);
            proof {
                assert(effects@.subrange(0, i + 1).drop_last() =~= effects@.subrange(0, i as int));
                assert(keys.subrange(0, i + 1) =~= keys.subrange(0, i as int).push(id));
                assert(keys.subrange(0, i + 1).to_set() =~= keys.subrange(0, i as int).to_set().insert(id)) by {
                    keys.subrange(0, i as int).lemma_push_to_set_commute(id);
                }
            }
        }
        assert(keys.subrange(0, n as int) =~= keys);
        assert(effects@.subrange(0, n as int) =~= effects@);
        this
    }

    /// Registers an effect under a number with a started runner, in place of
    /// the one registered there before.
    pub fn register_effect(&mut self, effect_id: EffectId, effect: Effect) -> (r: Result<(), EffectError>)
        ensures
            r is Ok,
            final(self).runners@.dom() == old(self).runners@.dom().insert(effect_id),
            final(self).runners@[effect_id].effect == effect,
            final(self).runners@[effect_id].running,
            forall|id: EffectId| id != effect_id && #[trigger] old(self).runners@.contains_key(id)
                ==> final(self).runners@[id] == old(self).runners@[id],
    {
        let mut runner = match EffectRunner::new(effect) {
            Ok(r) => r,
            Err(e) => {
                return Err(e);
            },
        };
        let _ = runner.start();
        self.runners.insert(effect_id, runner);
        Ok(())
    }

    /// Unregisters an effect, stopping its runner.
    pub fn unregister_effect(&mut self, effect_id: EffectId) -> (r: Result<(), EffectError>)
        ensures
            r is Ok,
            final(self).runners@ == old(self).runners@.remove(effect_id),
    {
        match self.runners.remove(&effect_id) {
            Some(mut runner) => {
                let _ = runner.stop();
            },
            None => {},
        }
        Ok(())
    }

    /// Starts the runner of an effect, if one is registered.
    pub fn start_effect(&mut self, effect_id: EffectId) -> (r: Result<(), EffectError>)
        ensures
            r is Ok,
            final(self).runners@.dom() == old(self).runners@.dom(),
            old(self).runners@.contains_key(effect_id) ==> final(self).runners@[effect_id].running
                && final(self).runners@[effect_id].effect == old(self).runners@[effect_id].effect,
            forall|id: EffectId| id != effect_id && #[trigger] old(self).runners@.contains_key(id)
                ==> final(self).runners@[id] == old(self).runners@[id],
    {
        self.set_running(effect_id, true)
    }

    /// Stops the runner of an effect, if one is registered.
    pub fn stop_effect(&mut self, effect_id: EffectId) -> (r: Result<(), EffectError>)
        ensures
            r is Ok,
            final(self).runners@.dom() == old(self).runners@.dom(),
            old(self).runners@.contains_key(effect_id) ==> !final(self).runners@[effect_id].running
                && final(self).runners@[effect_id].effect == old(self).runners@[effect_id].effect,
            forall|id: EffectId| id != effect_id && #[trigger] old(self).runners@.contains_key(id)
                ==> final(self).runners@[id] == old(self).runners@[id],
    {
        self.set_running(effect_id, false)
    }

    /// Starts or stops the runner of an effect, if one is registered.
    fn set_running(&mut self, effect_id: EffectId, on: bool) -> (r: Result<(), EffectError>)
        ensures
            r is Ok,
            final(self).runners@.dom() == old(self).runners@.dom(),
            old(self).runners@.contains_key(effect_id) ==> final(self).runners@[effect_id].running
                == on && final(self).runners@[effect_id].effect == old(self).runners@[effect_id].effect,
            forall|id: EffectId| id != effect_id && #[trigger] old(self).runners@.contains_key(id)
                ==> final(self).runners@[id] == old(self).runners@[id],
    {
        match self.runners.remove(&effect_id) {
            Some(mut runner) => {
                if on {
                    let _ = runner.start();
                } else {
                    let _ = runner.stop();
                }
                self.runners.insert(effect_id, runner);
                assert(self.runners@.dom() =~= old(self).runners@.dom());
            },
            None => {},
        }
        Ok(())
    }
}

/// Tracks which registered effects are running: the decisions of an engine
/// that runs each effect on a thread of its own. Only registered effects run.
#[derive(Debug)]
pub struct EffectScheduler {
    effects: HashMap<EffectId, Effect>,
    running: Vec<EffectId>,
}

/// The registry a list of effects makes, registered in order (a later effect
/// under the same number replaces an earlier one).
pub open spec fn registry_of(effects: Seq<(EffectId, Effect)>) -> Map<EffectId, Effect>
    decreases effects.len(),
{
    if effects.len() == 0 {
        Map::empty()
    } else {
        registry_of(effects.drop_last()).insert(effects.last().0, effects.last().1)
    }
}

/// Keeps the numbers other than `id`.
pub open spec fn other_than(id: EffectId) -> spec_fn(EffectId) -> bool {
    |x: EffectId| x != id
}

/// What the caller is to do to carry out a decision of the scheduler.
#[derive(Debug)]
pub enum EffectAction {
    /// Nothing.
    Nothing,
    /// Stop the thread running the effect.
    Stop(EffectId),
    /// Start a thread running the effect, first stopping the one running it
    /// where `restart` is set.
    Run { effect_id: EffectId, effect: Effect, restart: bool },
}

impl EffectScheduler {
    #[verifier::type_invariant]
    spec fn running_registered(self) -> bool {
        forall|x: EffectId| #[trigger] self.running@.contains(x) ==> self.effects@.contains_key(x)
    }

    /// The registered effects, by number.
    pub closed spec fn registered(self) -> Map<EffectId, Effect> {
        self.effects@
    }

    /// The running effects, in the order they were started.
    pub closed spec fn running_ids(self) -> Seq<EffectId> {
        self.running@
    }

    /// A scheduler with no effects.
    pub fn new() -> (r: EffectScheduler)
        ensures
            r.registered() == Map::<EffectId, Effect>::empty(),
            r.running_ids().len() == 0,
    {
        EffectScheduler { effects: HashMap::new(), running: Vec::new() }
    }

    /// Whether an effect is running; a running effect is registered.
    pub fn effect_running(&self, effect_id: EffectId) -> (r: bool)
        ensures
            r == self.running_ids().contains(effect_id),
            r ==> self.registered().contains_key(effect_id),
    {
        proof {
            use_type_invariant(self);
        }
        let n = self.running.len();
        for i in 0..n
            invariant
                n == self.running@.len(),
                forall|x: EffectId| #[trigger] self.running@.contains(x) ==> self.effects@.contains_key(x),
                forall|j: int| 0 <= j < i ==> self.running@[j] != effect_id,
        {
            if self.running[i] == effect_id {
                assert(self.running@[i as int] == effect_id);
                assert(self.running@.contains(effect_id));
                return true;
            }
        }
        false
    }

    /// Registers an effect under a number, in place of the one registered
    /// there before.
    pub fn register_effect(&mut self, effect_id: EffectId, effect: Effect) -> (r: Result<(), EffectError>)
        ensures
            r is Ok,
            final(self).registered() == old(self).registered().insert(effect_id, effect),
            final(self).running_ids() == old(self).running_ids(),
    {
        let (mut effects, running) = self.take_parts();
        effects.insert(effect_id, effect);
        *self = EffectScheduler { effects, running };
        Ok(())
    }

    /// Takes the registered and the running effects out, leaving the
    /// scheduler empty.
    fn take_parts(&mut self) -> (r: (HashMap<EffectId, Effect>, Vec<EffectId>))
        ensures
            r.0@ == old(self).effects@,
            r.1@ == old(self).running@,
            forall|x: EffectId| #[trigger] r.1@.contains(x) ==> r.0@.contains_key(x),
    {
        let mut parts = EffectScheduler { effects: HashMap::new(), running: Vec::new() };
        std::mem::swap(self, &mut parts);
        proof {
            use_type_invariant(&parts);
        }
        let EffectScheduler { effects, running } = parts;
        (effects, running)
    }

    /// Drops the effect from the running ones; returns whether it ran.
    fn mark_stopped(&mut self, effect_id: EffectId) -> (r: bool)
        ensures
            r == old(self).running@.contains(effect_id),
            final(self).running@ == old(self).running@.filter(other_than(effect_id)),
            final(self).effects@ == old(self).effects@,
    {
        proof {
            use_type_invariant(&*self);
        }
        let was = self.effect_running(effect_id);
        let mut kept: Vec<EffectId> = Vec::new();
        let n = self.running.len();
        let ghost s = self.running@;
        for i in 0..n
            invariant
                n == s.len(),
                s == self.running@,
                kept@ == s.subrange(0, i as int).filter(other_than(effect_id)),
        {
            proof {
                reveal(Seq::filter);
                assert(s.subrange(0, i + 1).drop_last() =~= s.subrange(0, i as int));
            }
            if self.running[i] != effect_id {
                kept.push(self.running[i]);
            }
            assert(kept@ =~= s.subrange(0, i + 1).filter(other_than(effect_id)));
        }
        assert(s.subrange(0, n as int) =~= s);
        proof {
            assert forall|x: EffectId| #[trigger] kept@.contains(x) implies self.effects@.contains_key(x) by {
                s.lemma_filter_contains_rev(other_than(effect_id), x);
            }
        }
        self.running = kept;
        was
    }

    /// Stops an effect: the thread running it is to stop, where it runs.
    pub fn stop_effect(&mut self, effect_id: EffectId) -> (r: EffectAction)
        ensures
            old(self).running_ids().contains(effect_id) ==> (r matches EffectAction::Stop(id) && id
                == effect_id),
            !old(self).running_ids().contains(effect_id) ==> r is Nothing,
            final(self).running_ids() == old(self).running_ids().filter(other_than(effect_id)),
            final(self).registered() == old(self).registered(),
    {
        if self.mark_stopped(effect_id) {
            EffectAction::Stop(effect_id)
        } else {
            EffectAction::Nothing
        }
    }

    /// Unregisters an effect, stopping it first where it runs.
    pub fn unregister_effect(&mut self, effect_id: EffectId) -> (r: EffectAction)
        ensures
            old(self).running_ids().contains(effect_id) ==> (r matches EffectAction::Stop(id) && id
                == effect_id),
            !old(self).running_ids().contains(effect_id) ==> r is Nothing,
            final(self).running_ids() == old(self).running_ids().filter(other_than(effect_id)),
            final(self).registered() == old(self).registered().remove(effect_id),
    {
        let action = self.stop_effect(effect_id);
        let (mut effects, running) = self.take_parts();
        proof {
            assert forall|x: EffectId| #[trigger] running@.contains(x) implies x != effect_id by {
                old(self).running@.lemma_filter_contains_rev(other_than(effect_id), x);
            }
        }
        effects.remove(&effect_id);
        *self = EffectScheduler { effects, running };
        action
    }

    /// Starts a registered effect (restarting it where it runs). An effect
    /// that is not registered does not run, and nothing changes.
    pub fn start_effect(&mut self, effect_id: EffectId) -> (r: Result<EffectAction, EffectError>)
        ensures
            !old(self).registered().contains_key(effect_id) ==> (r == Err::<EffectAction, EffectError>(
                EffectError::NotRegistered) && final(self).running_ids() == old(self).running_ids()
                && final(self).registered() == old(self).registered()),
            old(self).registered().contains_key(effect_id) ==> (r matches Ok(
                EffectAction::Run { effect_id: id, effect, restart },
            ) && id == effect_id && effect == old(self).registered()[effect_id] && restart
                == old(self).running_ids().contains(effect_id) && final(self).running_ids()
                == old(self).running_ids().filter(other_than(effect_id)).push(effect_id)),
            final(self).registered() == old(self).registered(),
    {
        let effect = match self.effects.get(&effect_id) {
            Some(e) => e.duplicate(),
            None => {
                return Err(EffectError::NotRegistered);
            },
        };
        let restart = self.mark_stopped(effect_id);
        let (effects, mut running) = self.take_parts();
        let ghost before = running@;
        running.push(effect_id);
        proof {
            assert forall|x: EffectId| #[trigger] running@.contains(x) implies effects@.contains_key(x) by {
                if x != effect_id {
                    let i = choose|i: int| 0 <= i < running@.len() && running@[i] == x;
                    assert(before[i] == x);
                    assert(before.contains(x));
                }
            }
        }
        *self = EffectScheduler { effects, running };
        Ok(EffectAction::Run { effect_id, effect, restart })
    }

    /// Takes a new set of effects in place of the registered ones: every
    /// running effect is stopped (the actions, in the order the effects were
    /// started), and the effects of the list are registered in order.
    pub fn reload_effects(&mut self, effects: Vec<(EffectId, Effect)>) -> (r: Vec<EffectAction>)
        ensures
            r@.len() == old(self).running_ids().len(),
            forall|i: int|
                0 <= i < r@.len() ==> (#[trigger] r@[i] matches EffectAction::Stop(id) && id
                    == old(self).running_ids()[i]),
            final(self).running_ids().len() == 0,
            final(self).registered() == registry_of(effects@),
    {
        let mut actions: Vec<EffectAction> = Vec::new();
        let n = self.running.len();
        for i in 0..n
            invariant
                n == self.running@.len(),
                self.running@ == old(self).running@,
                actions@.len() == i,
                forall|j: int|
                    0 <= j < i ==> (#[trigger] actions@[j] matches EffectAction::Stop(id) && id
                        == old(self).running@[j]),
        {
            actions.push(EffectAction::Stop(self.running[i]));
        }
        let mut registry: HashMap<EffectId, Effect> = HashMap::new();
        let m = effects.len();
        for i in 0..m
            invariant
                m == effects@.len(),
                registry@ == registry_of(effects@.subrange(0, i as int)),
        {
            let id = effects[i].0;
            let e = effects[i].1.duplicate();
            registry.insert(id, e);
            assert(effects@.subrange(0, i + 1).drop_last() =~= effects@.subrange(0, i as int));
        }
        assert(effects@.subrange(0, m as int) =~= effects@);
        *self = EffectScheduler { effects: registry, running: Vec::new() };
        actions
    }
}

} // verus!
