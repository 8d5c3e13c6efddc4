use vstd::prelude::*;

use crate::game_sim::player::PlayerAction;

verus! {

pub const NUM_JOINTS: usize = 14;

/// The joints of a fighter's skeleton, in the order of their indices.
#[derive(Debug, Clone, Copy, PartialEq, Eq, Structural, Hash)]
pub enum JointId {
    Hips,
    Torso,
    Neck,
    Head,
    LShoulder,
    RShoulder,
    LElbow,
    RElbow,
    LWrist,
    RWrist,
    LKnee,
    RKnee,
    LAnkle,
    RAnkle,
}

/// The index of each joint in a skeleton's joint array.
pub open spec fn spec_joint_index(j: JointId) -> usize {
    match j {
        JointId::Hips => 0,
        JointId::Torso => 1,
        JointId::Neck => 2,
        JointId::Head => 3,
        JointId::LShoulder => 4,
        JointId::RShoulder => 5,
        JointId::LElbow => 6,
        JointId::RElbow => 7,
        JointId::LWrist => 8,
        JointId::RWrist => 9,
        JointId::LKnee => 10,
        JointId::RKnee => 11,
        JointId::LAnkle => 12,
        JointId::RAnkle => 13,
    }
}

impl JointId {
    /// The joint's index in a skeleton's joint array.
    pub fn index(self) -> (r: usize)
        ensures
            r == spec_joint_index(self),
            r < NUM_JOINTS,
    {
        match self {
            JointId::Hips => 0,
            JointId::Torso => 1,
            JointId::Neck => 2,
            JointId::Head => 3,
            JointId::LShoulder => 4,
            JointId::RShoulder => 5,
            JointId::LElbow => 6,
            JointId::RElbow => 7,
            JointId::LWrist => 8,
            JointId::RWrist => 9,
            JointId::LKnee => 10,
            JointId::RKnee => 11,
            JointId::LAnkle => 12,
            JointId::RAnkle => 13,
        }
    }
}

/// The parent of each joint in the skeleton's chain; the hips are the root
/// and their own parent.
pub open spec fn spec_parent(j: usize) -> usize {
    if j == 0 || j == 1 || j == 10 || j == 11 {
        0
    } else if j == 2 || j == 4 || j == 5 {
        1
    } else if j == 3 {
        2
    } else {
        (j - 2) as usize
    }
}

/// Parent joint index for the forward-kinematics chain.
pub fn parent(j: usize) -> (r: usize)
    requires
        j < NUM_JOINTS,
    ensures
        r == spec_parent(j),
        r <= j,
{
    if j == 0 || j == 1 || j == 10 || j == 11 {
        0
    } else if j == 2 || j == 4 || j == 5 {
        1
    } else if j == 3 {
        2
    } else {
        j - 2
    }
}

#[derive(Debug, Clone, Copy, PartialEq, Eq, Structural, Hash)]
pub enum AnimId {
    Idle,
    WalkForward,
    WalkBack,
    Jump,
    Crouch,
    LightAttack1,
    LightAttack2,
    LightAttack3,
    HeavyAttack,
    Uppercut,
    AerialAttack,
    Block,
    Fireball,
    DashStrike,
    Hitstun,
    Blockstun,
    Knockdown,
    Getup,
}

/// The animation shown for each action; stun counters do not matter.
pub open spec fn spec_anim_for(action: PlayerAction) -> AnimId {
    match action {
        PlayerAction::Idle => AnimId::Idle,
        PlayerAction::WalkForward => AnimId::WalkForward,
        PlayerAction::WalkBack => AnimId::WalkBack,
        PlayerAction::Jump => AnimId::Jump,
        PlayerAction::Crouch => AnimId::Crouch,
        PlayerAction::LightAttack1 => AnimId::LightAttack1,
        PlayerAction::LightAttack2 => AnimId::LightAttack2,
        PlayerAction::LightAttack3 => AnimId::LightAttack3,
        PlayerAction::HeavyAttack => AnimId::HeavyAttack,
        PlayerAction::Uppercut => AnimId::Uppercut,
        PlayerAction::AerialAttack => AnimId::AerialAttack,
        PlayerAction::Block => AnimId::Block,
        PlayerAction::Fireball => AnimId::Fireball,
        PlayerAction::DashStrike => AnimId::DashStrike,
        PlayerAction::Hitstun { .. } => AnimId::Hitstun,
        PlayerAction::Blockstun { .. } => AnimId::Blockstun,
        PlayerAction::Knockdown { .. } => AnimId::Knockdown,
        PlayerAction::Getup => AnimId::Getup,
    }
}

impl AnimId {
    pub fn from_action(action: &PlayerAction) -> (r: Self)
        ensures
            r == spec_anim_for(*action),
    {
        match action {
            PlayerAction::Idle => AnimId::Idle,
            PlayerAction::WalkForward => AnimId::WalkForward,
            PlayerAction::WalkBack => AnimId::WalkBack,
            PlayerAction::Jump => AnimId::Jump,
            PlayerAction::Crouch => AnimId::Crouch,
            PlayerAction::LightAttack1 => AnimId::LightAttack1,
            PlayerAction::LightAttack2 => AnimId::LightAttack2,
            PlayerAction::LightAttack3 => AnimId::LightAttack3,
            PlayerAction::HeavyAttack => AnimId::HeavyAttack,
            PlayerAction::Uppercut => AnimId::Uppercut,
            PlayerAction::AerialAttack => AnimId::AerialAttack,
            PlayerAction::Block => AnimId::Block,
            PlayerAction::Fireball => AnimId::Fireball,
            PlayerAction::DashStrike => AnimId::DashStrike,
            PlayerAction::Hitstun { .. } => AnimId::Hitstun,
            PlayerAction::Blockstun { .. } => AnimId::Blockstun,
            PlayerAction::Knockdown { .. } => AnimId::Knockdown,
            PlayerAction::Getup => AnimId::Getup,
        }
    }
}

} // verus!
