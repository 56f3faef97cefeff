//! Which animation an enemy plays.
use vstd::prelude::*;

verus! {

/// Number of animations in the enemy model.
pub const TOTAL_ENEMY_MODEL_ANIMATIONS: usize = 24;

/// What an enemy is doing.
#[derive(Clone, Copy, Debug, PartialEq, Eq, Structural)]
pub enum EnemyState {
    Idle,
    PlayerInFOV,
    Dead,
    GoToAgentTarget,
    EnemyAgentReachedTarget,
    AttackPlayer,
    RotateTowardsPlayer,
}

/// The enemy model's animations that the game uses.
#[derive(Clone, Copy, Debug, PartialEq, Eq, Structural)]
pub enum EnemyAnimationType {
    Death,
    HitReceive,
    IdleGun,
    IdleGunPointing,
    Run,
}

pub open spec fn spec_animation_index(t: EnemyAnimationType) -> usize {
    match t {
        EnemyAnimationType::Death => 0,
        EnemyAnimationType::HitReceive => 2,
        EnemyAnimationType::IdleGun => 5,
        EnemyAnimationType::IdleGunPointing => 6,
        EnemyAnimationType::Run => 16,
    }
}

/// The position of an animation in the enemy model's animation list.
pub fn get_animation_index_for_enemy_animation_type(t: &EnemyAnimationType) -> (index: usize)
    ensures
        index == spec_animation_index(*t),
        index < TOTAL_ENEMY_MODEL_ANIMATIONS,
{
    match t {
        EnemyAnimationType::Death => 0,
        EnemyAnimationType::HitReceive => 2,
        EnemyAnimationType::IdleGun => 5,
        EnemyAnimationType::IdleGunPointing => 6,
        EnemyAnimationType::Run => 16,
    }
}

pub open spec fn spec_animation_for_state(s: EnemyState) -> EnemyAnimationType {
    match s {
        EnemyState::Dead => EnemyAnimationType::Death,
        EnemyState::GoToAgentTarget => EnemyAnimationType::Run,
        EnemyState::AttackPlayer => EnemyAnimationType::IdleGunPointing,
        _ => EnemyAnimationType::IdleGun,
    }
}

/// The animation an enemy plays in a state: running toward its target, aiming while
/// attacking, dying, and otherwise standing with the gun.
pub fn get_animation_type_for_enemy_state(s: &EnemyState) -> (t: EnemyAnimationType)
    ensures
        t == spec_animation_for_state(*s),
{
    match s {
        EnemyState::Idle => EnemyAnimationType::IdleGun,
        EnemyState::PlayerInFOV => EnemyAnimationType::IdleGun,
        EnemyState::Dead => EnemyAnimationType::Death,
        EnemyState::GoToAgentTarget => EnemyAnimationType::Run,
        EnemyState::EnemyAgentReachedTarget => EnemyAnimationType::IdleGun,
        EnemyState::AttackPlayer => EnemyAnimationType::IdleGunPointing,
        EnemyState::RotateTowardsPlayer => EnemyAnimationType::IdleGun,
    }
}

/// Every enemy state is animated by an animation that the model has, and only a dead
/// enemy plays the death animation.
pub proof fn lemma_enemy_state_animation_in_model(s: EnemyState)
    ensures
        spec_animation_index(spec_animation_for_state(s)) < TOTAL_ENEMY_MODEL_ANIMATIONS,
        (spec_animation_for_state(s) == EnemyAnimationType::Death) <==> s == EnemyState::Dead,
{
}

/// Enemies turn toward where they walk only while walking to their navigation target.
pub fn enemy_faces_movement(s: EnemyState) -> (faces: bool)
    ensures
        faces == (s == EnemyState::GoToAgentTarget),
{
    s == EnemyState::GoToAgentTarget
}

} // verus!
