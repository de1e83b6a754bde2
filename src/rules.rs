//! Platform rules and the algebra that resolves a rule list to one verdict.

use vstd::prelude::*;
use crate::text::{contains_text, texts};

verus! {

/// An operating system family named by rules and native classifiers.
#[derive(Debug, Clone, Copy, PartialEq, Eq, Structural, Hash)]
pub enum Os {
    Linux,
    Windows,
    Osx,
}

/// A processor architecture class named by rules.
#[derive(Debug, Clone, Copy, PartialEq, Eq, Structural, Hash)]
pub enum Arch {
    X64,
    X86,
}

/// The machine a plan is made for.
#[derive(Debug, Clone, Copy, PartialEq, Eq, Structural)]
pub struct Platform {
    pub os: Os,
    pub arch: Arch,
}

impl Os {
    /// The family of an operating system known by its platform name
    /// (`linux`, `windows`, `macos`); `None` for any other.
    pub fn target(os_name: &str) -> (r: Option<Os>)
        ensures
            os_name@ == "linux"@ ==> r == Some(Os::Linux),
            os_name@ == "windows"@ ==> r == Some(Os::Windows),
            os_name@ == "macos"@ ==> r == Some(Os::Osx),
            r is None <==> (os_name@ != "linux"@ && os_name@ != "windows"@ && os_name@
                != "macos"@),
    {
        proof {
            reveal_strlit("linux");
            reveal_strlit("windows");
            reveal_strlit("macos");
            assert("linux"@[0] != "windows"@[0]);
            assert("linux"@[0] != "macos"@[0]);
            assert("windows"@[0] != "macos"@[0]);
        }
        if crate::text::text_eq(os_name, "linux") {
            Some(Os::Linux)
        } else if crate::text::text_eq(os_name, "windows") {
            Some(Os::Windows)
        } else if crate::text::text_eq(os_name, "macos") {
            Some(Os::Osx)
        } else {
            None
        }
    }
}

impl Arch {
    /// The class of a processor architecture known by its platform name:
    /// `x86_64` and `aarch64` count as 64-bit, everything else as 32-bit.
    pub fn target(arch_name: &str) -> (r: Arch)
        ensures
            r == (if arch_name@ == "x86_64"@ || arch_name@ == "aarch64"@ {
                Arch::X64
            } else {
                Arch::X86
            }),
    {
        if crate::text::text_eq(arch_name, "x86_64") || crate::text::text_eq(arch_name, "aarch64") {
            Arch::X64
        } else {
            Arch::X86
        }
    }
}

/// What a rule does with the verdict of its condition.
#[derive(Debug, Clone, Copy, PartialEq, Eq, Structural)]
pub enum RuleAction {
    Allow,
    Disallow,
}

/// The operating-system part of a rule's condition.
#[derive(Debug, Clone)]
pub struct RuleOsCondition {
    pub name: Option<Os>,
    pub version: Option<String>,
    pub arch: Option<Arch>,
}

/// A rule's condition. Of the feature map only its keys are kept: the
/// values are never consulted.
#[derive(Debug, Clone)]
pub struct Condition {
    pub os: Option<RuleOsCondition>,
    pub features: Option<Vec<String>>,
}

/// A platform or feature predicate with an allow or disallow action.
#[derive(Debug, Clone)]
pub struct Rule {
    pub action: RuleAction,
    pub condition: Condition,
}

/// The verdict of the operating-system condition: the name check, then the
/// architecture check, each present one replacing the verdict before it.
pub open spec fn os_verdict(c: Option<RuleOsCondition>, p: Platform) -> bool {
    match c {
        None => true,
        Some(oc) => match oc.arch {
            Some(a) => a == p.arch,
            None => match oc.name {
                Some(n) => n == p.os,
                None => true,
            },
        },
    }
}

/// Whether every required feature is enabled.
pub open spec fn features_enabled(required: Seq<Seq<char>>, enabled: Seq<Seq<char>>) -> bool {
    forall|i: int| 0 <= i < required.len() ==> enabled.contains(#[trigger] required[i])
}

/// The verdict of a whole condition when features are consulted: a present
/// feature condition replaces the operating-system verdict.
pub open spec fn condition_verdict(c: Condition, p: Platform, enabled: Seq<Seq<char>>) -> bool {
    match c.features {
        Some(keys) => features_enabled(texts(keys@), enabled),
        None => os_verdict(c.os, p),
    }
}

/// An action applied to a verdict.
pub open spec fn act(a: RuleAction, verdict: bool) -> bool {
    match a {
        RuleAction::Allow => verdict,
        RuleAction::Disallow => !verdict,
    }
}

/// Whether a rule passes on a platform, features not consulted.
pub open spec fn rule_passes(r: Rule, p: Platform) -> bool {
    act(r.action, os_verdict(r.condition.os, p))
}

/// Whether a rule passes on a platform with the given features enabled.
pub open spec fn rule_passes_featured(r: Rule, p: Platform, enabled: Seq<Seq<char>>) -> bool {
    act(r.action, condition_verdict(r.condition, p, enabled))
}

/// Whether all rules pass on a platform, features not consulted.
pub open spec fn all_pass(rules: Seq<Rule>, p: Platform) -> bool {
    forall|i: int| 0 <= i < rules.len() ==> #[trigger] rule_passes(rules[i], p)
}

/// Whether all rules pass on a platform with the given features enabled.
pub open spec fn all_pass_featured(rules: Seq<Rule>, p: Platform, enabled: Seq<Seq<char>>) -> bool {
    forall|i: int| 0 <= i < rules.len() ==> #[trigger] rule_passes_featured(rules[i], p, enabled)
}

impl Rule {
    /// The verdict of the operating-system condition alone.
    pub fn check_os_condition(&self, platform: Platform) -> (r: bool)
        ensures
            r == os_verdict(self.condition.os, platform),
    {
        let mut allow = true;
        if let Some(os_condition) = &self.condition.os {
            if let Some(os_name) = os_condition.name {
                allow = os_name == platform.os;
            }
            if let Some(os_arch) = os_condition.arch {
                allow = os_arch == platform.arch;
            }
        }
        allow
    }

    /// Whether the rule passes, with the feature condition checked against
    /// the enabled feature names.
    pub fn unwrap_featured(&self, platform: Platform, features: &Vec<String>) -> (r: bool)
        ensures
            r == rule_passes_featured(*self, platform, texts(features@)),
    {
        let mut allow = self.check_os_condition(platform);
        if let Some(keys) = &self.condition.features {
            let mut all = true;
            let mut i: usize = 0;
            while i < keys.len()
                invariant
                    i <= keys@.len(),
                    all == features_enabled(texts(keys@).subrange(0, i as int), texts(features@)),
                decreases keys@.len() - i,
            {
                let found = contains_text(features, keys[i].as_str());
                let ghost pre = texts(keys@).subrange(0, i as int);
                let ghost next = texts(keys@).subrange(0, i as int + 1);
                assert(next =~= pre.push(keys@[i as int]@));
                assert(features_enabled(next, texts(features@)) == (features_enabled(
                    pre,
                    texts(features@),
                ) && found)) by {
                    if features_enabled(pre, texts(features@)) && found {
                        assert forall|j: int| 0 <= j < next.len() implies texts(
                            features@,
                        ).contains(#[trigger] next[j]) by {
                            if j < pre.len() {
                                assert(next[j] == pre[j]);
                            }
                        }
                    }
                    if features_enabled(next, texts(features@)) {
                        assert(texts(features@).contains(next[i as int]));
                        assert forall|j: int| 0 <= j < pre.len() implies texts(
                            features@,
                        ).contains(#[trigger] pre[j]) by {
                            assert(next[j] == pre[j]);
                        }
                    }
                }
                all = all && found;
                i += 1;
            }
            assert(texts(keys@).subrange(0, keys@.len() as int) =~= texts(keys@));
            allow = all;
        }
        match self.action {
            RuleAction::Allow => allow,
            RuleAction::Disallow => !allow,
        }
    }

    /// Whether the rule passes on the platform; features are not consulted.
    pub fn unwrap(&self, platform: Platform) -> (r: bool)
        ensures
            r == rule_passes(*self, platform),
    {
        let allow = self.check_os_condition(platform);
        match self.action {
            RuleAction::Allow => allow,
            RuleAction::Disallow => !allow,
        }
    }

    /// Whether every rule of the list passes on the platform; features are
    /// not consulted. An empty list passes.
    pub fn unpack_all(rules: &Vec<Rule>, platform: Platform) -> (r: bool)
        ensures
            r == all_pass(rules@, platform),
    {
        let mut i: usize = 0;
        while i < rules.len()
            invariant
                i <= rules@.len(),
                forall|j: int| 0 <= j < i ==> #[trigger] rule_passes(rules@[j], platform),
            decreases rules@.len() - i,
        {
            if !rules[i].unwrap(platform) {
                return false;
            }
            i += 1;
        }
        true
    }
}

/// Whether all rules pass, with their feature conditions checked against
/// the enabled feature names. An empty list passes.
pub fn evaluate(rules: &Vec<Rule>, platform: Platform, features: &Vec<String>) -> (r: bool)
    ensures
        r == all_pass_featured(rules@, platform, texts(features@)),
{
    let mut i: usize = 0;
    while i < rules.len()
        invariant
            i <= rules@.len(),
            forall|j: int|
                0 <= j < i ==> #[trigger] rule_passes_featured(rules@[j], platform, texts(features@)),
        decreases rules@.len() - i,
    {
        if !rules[i].unwrap_featured(platform, features) {
            return false;
        }
        i += 1;
    }
    true
}

/// A rule without a condition passes exactly when it allows, on every
/// platform and with any features enabled.
pub proof fn lemma_unconditional_rule(r: Rule, p: Platform, enabled: Seq<Seq<char>>)
    requires
        r.condition.os is None,
        r.condition.features is None,
    ensures
        all_pass_featured(seq![r], p, enabled) == (r.action == RuleAction::Allow),
        all_pass(seq![r], p) == (r.action == RuleAction::Allow),
{
    assert(seq![r][0] == r);
    if all_pass_featured(seq![r], p, enabled) {
        assert(rule_passes_featured(seq![r][0], p, enabled));
    }
    if all_pass(seq![r], p) {
        assert(rule_passes(seq![r][0], p));
    }
}

/// Where a rule has a feature condition, the feature check alone decides
/// the rule's verdict before its action: the operating-system condition,
/// matched or not, is overridden.
pub proof fn lemma_features_override_os(r: Rule, p: Platform, enabled: Seq<Seq<char>>)
    requires
        r.condition.features is Some,
    ensures
        rule_passes_featured(r, p, enabled) == act(
            r.action,
            features_enabled(texts(r.condition.features->Some_0@), enabled),
        ),
{
}

} // verus!
