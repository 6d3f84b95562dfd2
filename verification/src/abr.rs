//! Adaptive bitrate: picks the encoding quality from measured network conditions.
use vstd::prelude::*;
use crate::clock::now_ms;

verus! {

/// Encoding quality levels, from lowest to highest.
#[derive(Debug, Clone, Copy, PartialEq, Eq, Structural)]
pub enum QualityLevel {
    UltraLow,
    Low,
    Medium,
    High,
    Ultra,
}

/// Rank of a level: 0 for UltraLow up to 4 for Ultra.
pub open spec fn rank(q: QualityLevel) -> int {
    match q {
        QualityLevel::UltraLow => 0,
        QualityLevel::Low => 1,
        QualityLevel::Medium => 2,
        QualityLevel::High => 3,
        QualityLevel::Ultra => 4,
    }
}

/// The level one step up (Ultra stays Ultra).
pub open spec fn spec_upgrade(q: QualityLevel) -> QualityLevel {
    match q {
        QualityLevel::UltraLow => QualityLevel::Low,
        QualityLevel::Low => QualityLevel::Medium,
        QualityLevel::Medium => QualityLevel::High,
        QualityLevel::High => QualityLevel::Ultra,
        QualityLevel::Ultra => QualityLevel::Ultra,
    }
}

/// The level one step down (UltraLow stays UltraLow).
pub open spec fn spec_degrade(q: QualityLevel) -> QualityLevel {
    match q {
        QualityLevel::Ultra => QualityLevel::High,
        QualityLevel::High => QualityLevel::Medium,
        QualityLevel::Medium => QualityLevel::Low,
        QualityLevel::Low => QualityLevel::UltraLow,
        QualityLevel::UltraLow => QualityLevel::UltraLow,
    }
}

impl QualityLevel {
    pub fn resolution(&self) -> (r: (u32, u32))
        ensures
            r == match *self {
                QualityLevel::UltraLow => (640u32, 360u32),
                QualityLevel::Low => (1280u32, 720u32),
                QualityLevel::Medium => (1280u32, 720u32),
                QualityLevel::High => (1920u32, 1080u32),
                QualityLevel::Ultra => (1920u32, 1080u32),
            },
    {
        match self {
            QualityLevel::UltraLow => (640, 360),
            QualityLevel::Low => (1280, 720),
            QualityLevel::Medium => (1280, 720),
            QualityLevel::High => (1920, 1080),
            QualityLevel::Ultra => (1920, 1080),
        }
    }

    pub fn target_fps(&self) -> (r: u32)
        ensures
            r == match *self {
                QualityLevel::UltraLow => 15u32,
                QualityLevel::Low => 24u32,
                QualityLevel::Medium => 30u32,
                QualityLevel::High => 55u32,
                QualityLevel::Ultra => 60u32,
            },
    {
        match self {
            QualityLevel::UltraLow => 15,
            QualityLevel::Low => 24,
            QualityLevel::Medium => 30,
            QualityLevel::High => 55,
            QualityLevel::Ultra => 60,
        }
    }

    pub fn target_bitrate(&self) -> (r: u32)
        ensures
            r == match *self {
                QualityLevel::UltraLow => 500_000u32,
                QualityLevel::Low => 1_000_000u32,
                QualityLevel::Medium => 2_000_000u32,
                QualityLevel::High => 4_000_000u32,
                QualityLevel::Ultra => 8_000_000u32,
            },
    {
        match self {
            QualityLevel::UltraLow => 500_000,
            QualityLevel::Low => 1_000_000,
            QualityLevel::Medium => 2_000_000,
            QualityLevel::High => 4_000_000,
            QualityLevel::Ultra => 8_000_000,
        }
    }

    /// Display text of the level.
    pub fn label(&self) -> (r: &'static str)
        ensures
            r@ == match *self {
                QualityLevel::UltraLow => "360p/15fps"@,
                QualityLevel::Low => "720p/24fps"@,
                QualityLevel::Medium => "720p/30fps"@,
                QualityLevel::High => "1080p/55fps"@,
                QualityLevel::Ultra => "1080p/60fps"@,
            },
    {
        match self {
            QualityLevel::UltraLow => "360p/15fps",
            QualityLevel::Low => "720p/24fps",
            QualityLevel::Medium => "720p/30fps",
            QualityLevel::High => "1080p/55fps",
            QualityLevel::Ultra => "1080p/60fps",
        }
    }

    pub fn upgrade(self) -> (r: Self)
        ensures
            r == spec_upgrade(self),
    {
        match self {
            QualityLevel::UltraLow => QualityLevel::Low,
            QualityLevel::Low => QualityLevel::Medium,
            QualityLevel::Medium => QualityLevel::High,
            QualityLevel::High => QualityLevel::Ultra,
            QualityLevel::Ultra => QualityLevel::Ultra,
        }
    }

    pub fn degrade(self) -> (r: Self)
        ensures
            r == spec_degrade(self),
    {
        match self {
            QualityLevel::Ultra => QualityLevel::High,
            QualityLevel::High => QualityLevel::Medium,
            QualityLevel::Medium => QualityLevel::Low,
            QualityLevel::Low => QualityLevel::UltraLow,
            QualityLevel::UltraLow => QualityLevel::UltraLow,
        }
    }
}

/// Upgrading moves one rank up except at the top; degrading moves one rank
/// down except at the bottom; each undoes the other away from the ends.
pub proof fn quality_steps(q: QualityLevel)
    ensures
        q != QualityLevel::Ultra ==> rank(spec_upgrade(q)) == rank(q) + 1,
        q == QualityLevel::Ultra ==> spec_upgrade(q) == q,
        q != QualityLevel::UltraLow ==> rank(spec_degrade(q)) == rank(q) - 1,
        q == QualityLevel::UltraLow ==> spec_degrade(q) == q,
        q != QualityLevel::Ultra ==> spec_degrade(spec_upgrade(q)) == q,
        q != QualityLevel::UltraLow ==> spec_upgrade(spec_degrade(q)) == q,
{
}

/// Network conditions the controller reads. The packet-loss fraction is a
/// floating-point value measured outside; the controller only needs its two
/// comparisons with the thresholds 1% and 5%.
#[derive(Debug, Clone, Copy, PartialEq, Eq, Structural)]
pub struct NetworkConditions {
    pub rtt_us: u64,
    pub bandwidth_bps: u64,
    pub jitter_us: u64,
    /// Packet loss below 1%.
    pub loss_below_upgrade_limit: bool,
    /// Packet loss above 5%.
    pub loss_above_downgrade_limit: bool,
}

/// 50 ms round trip, no loss, 5 Mbps, 5 ms jitter.
pub open spec fn default_network_conditions() -> NetworkConditions {
    NetworkConditions {
        rtt_us: 50_000,
        bandwidth_bps: 5_000_000,
        jitter_us: 5_000,
        loss_below_upgrade_limit: true,
        loss_above_downgrade_limit: false,
    }
}

impl NetworkConditions {
    /// 50 ms round trip, no loss, 5 Mbps, 5 ms jitter.
    pub fn default_conditions() -> (r: Self)
        ensures
            r == default_network_conditions(),
    {
        NetworkConditions {
            rtt_us: 50_000,
            bandwidth_bps: 5_000_000,
            jitter_us: 5_000,
            loss_below_upgrade_limit: true,
            loss_above_downgrade_limit: false,
        }
    }
}

/// The two loss comparisons come from one measured fraction, so they cannot both hold.
pub open spec fn consistent(c: NetworkConditions) -> bool {
    !(c.loss_below_upgrade_limit && c.loss_above_downgrade_limit)
}

/// Conditions good enough to raise quality: more than 6 Mbps, loss below 1%,
/// round trip under 50 ms.
pub open spec fn needs_upgrade(c: NetworkConditions) -> bool {
    c.bandwidth_bps > 6_000_000 && c.loss_below_upgrade_limit && c.rtt_us < 50_000
}

/// Conditions bad enough to lower quality: loss above 5%, round trip over
/// 200 ms, or less than 1 Mbps.
pub open spec fn needs_downgrade(c: NetworkConditions) -> bool {
    c.loss_above_downgrade_limit || c.rtt_us > 200_000 || c.bandwidth_bps < 1_000_000
}

/// The quality chosen from `q` under conditions `c`: downgrading wins over upgrading.
pub open spec fn adjusted(q: QualityLevel, c: NetworkConditions) -> QualityLevel {
    if needs_downgrade(c) && q != QualityLevel::UltraLow {
        spec_degrade(q)
    } else if needs_upgrade(c) && q != QualityLevel::Ultra {
        spec_upgrade(q)
    } else {
        q
    }
}

/// What recording `metrics` at `now` does to controller `c`, giving `c2`:
/// the conditions are kept; while the cooldown since the last adjustment
/// runs (or `now` is earlier than it) nothing else changes; otherwise the
/// quality is adjusted and `now` becomes the time of the last adjustment.
pub open spec fn metrics_outcome(c: AbcController, metrics: NetworkConditions, now: u64, c2: AbcController) -> bool {
    &&& c2.spec_metrics() == metrics
    &&& c2.cooldown() == c.cooldown()
    &&& if now < c.last_adjustment() || now - c.last_adjustment() < c.cooldown() {
        &&& c2.quality() == c.quality()
        &&& c2.last_adjustment() == c.last_adjustment()
    } else {
        &&& c2.quality() == adjusted(c.quality(), metrics)
        &&& c2.last_adjustment() == now
    }
}

/// Adaptive bitrate controller.
#[derive(Debug)]
pub struct AbcController {
    current_quality: QualityLevel,
    metrics: NetworkConditions,
    last_adjustment_ms: u64,
    adjustment_cooldown_ms: u64,
}

impl AbcController {
    pub closed spec fn quality(&self) -> QualityLevel {
        self.current_quality
    }

    pub closed spec fn spec_metrics(&self) -> NetworkConditions {
        self.metrics
    }

    pub closed spec fn last_adjustment(&self) -> u64 {
        self.last_adjustment_ms
    }

    pub closed spec fn cooldown(&self) -> u64 {
        self.adjustment_cooldown_ms
    }

    /// Starts at High quality with a 10 s cooldown, counted from now.
    pub fn new() -> (r: Self)
        ensures
            r.quality() == QualityLevel::High,
            r.cooldown() == 10_000,
            r.spec_metrics() == default_network_conditions(),
    {
        Self::new_at(now_ms())
    }

    /// Starts at High quality with a 10 s cooldown, counted from `now`.
    pub fn new_at(now: u64) -> (r: Self)
        ensures
            r.quality() == QualityLevel::High,
            r.cooldown() == 10_000,
            r.last_adjustment() == now,
            r.spec_metrics() == default_network_conditions(),
    {
        AbcController {
            current_quality: QualityLevel::High,
            metrics: NetworkConditions::default_conditions(),
            last_adjustment_ms: now,
            adjustment_cooldown_ms: 10_000,
        }
    }

    /// Records new conditions and, once the cooldown has passed, adjusts the quality.
    pub fn update_metrics(&mut self, metrics: NetworkConditions)
        ensures
            exists|now: u64| #[trigger] metrics_outcome(*old(self), metrics, now, *final(self)),
    {
        let now = now_ms();
        self.update_metrics_at(metrics, now);
        assert(metrics_outcome(*old(self), metrics, now, *self));
    }

    /// Records new conditions observed at `now`. When less than the cooldown
    /// has passed since the last adjustment (or `now` is earlier than it)
    /// nothing else changes; otherwise the quality is adjusted and `now`
    /// becomes the time of the last adjustment.
    pub fn update_metrics_at(&mut self, metrics: NetworkConditions, now: u64)
        ensures
            metrics_outcome(*old(self), metrics, now, *final(self)),
    {
        self.metrics = metrics;
        if now < self.last_adjustment_ms || now - self.last_adjustment_ms < self.adjustment_cooldown_ms {
            return;
        }
        self.adjust_quality(now);
    }

    fn adjust_quality(&mut self, now: u64)
        ensures
            final(self).quality() == adjusted(old(self).quality(), old(self).spec_metrics()),
            final(self).spec_metrics() == old(self).spec_metrics(),
            final(self).cooldown() == old(self).cooldown(),
            final(self).last_adjustment() == now,
    {
        let m = self.metrics;
        let upgrade = m.bandwidth_bps > 6_000_000 && m.loss_below_upgrade_limit && m.rtt_us < 50_000;
        let downgrade = m.loss_above_downgrade_limit || m.rtt_us > 200_000 || m.bandwidth_bps < 1_000_000;
        if downgrade && self.current_quality != QualityLevel::UltraLow {
            self.current_quality = self.current_quality.degrade();
        } else if upgrade && self.current_quality != QualityLevel::Ultra {
            self.current_quality = self.current_quality.upgrade();
        }
        self.last_adjustment_ms = now;
    }

    pub fn current_quality(&self) -> (r: QualityLevel)
        ensures
            r == self.quality(),
    {
        self.current_quality
    }

    pub fn metrics(&self) -> (r: &NetworkConditions)
        ensures
            *r == self.spec_metrics(),
    {
        &self.metrics
    }
}

/// One adjustment moves the quality by at most one level, never lowers it
/// when no downgrade is called for, and never raises it when one is.
pub proof fn adjustment_moves_one_level(q: QualityLevel, c: NetworkConditions)
    requires
        consistent(c),
    ensures
        rank(adjusted(q, c)) - rank(q) <= 1,
        rank(q) - rank(adjusted(q, c)) <= 1,
        !needs_downgrade(c) ==> rank(adjusted(q, c)) >= rank(q),
        needs_downgrade(c) ==> rank(adjusted(q, c)) <= rank(q),
        needs_downgrade(c) && q != QualityLevel::UltraLow ==> rank(adjusted(q, c)) == rank(q) - 1,
{
}

/// Quality changes only for a reason read off the link itself. It rises
/// only on a link faster than 6 Mbps, losing under 1% and answering within
/// 50 ms, and then by exactly one level. It falls only on a link losing
/// over 5%, slower than 200 ms or thinner than 1 Mbps. A good link with no
/// such fault always raises a level below the top, and a faulty link always
/// lowers a level above the bottom.
pub proof fn quality_change_law(q: QualityLevel, c: NetworkConditions)
    ensures
        rank(adjusted(q, c)) > rank(q) ==> c.bandwidth_bps > 6_000_000 && c.loss_below_upgrade_limit
            && c.rtt_us < 50_000 && rank(adjusted(q, c)) == rank(q) + 1,
        rank(adjusted(q, c)) < rank(q) ==> (c.loss_above_downgrade_limit || c.rtt_us > 200_000
            || c.bandwidth_bps < 1_000_000) && rank(adjusted(q, c)) == rank(q) - 1,
        c.bandwidth_bps > 6_000_000 && c.loss_below_upgrade_limit && c.rtt_us < 50_000
            && !c.loss_above_downgrade_limit && rank(q) < 4 ==> rank(adjusted(q, c)) == rank(q) + 1,
        (c.loss_above_downgrade_limit || c.rtt_us > 200_000 || c.bandwidth_bps < 1_000_000) && rank(q)
            > 0 ==> rank(adjusted(q, c)) == rank(q) - 1,
        !(c.bandwidth_bps > 6_000_000 && c.loss_below_upgrade_limit && c.rtt_us < 50_000)
            && !(c.loss_above_downgrade_limit || c.rtt_us > 200_000 || c.bandwidth_bps < 1_000_000)
            ==> adjusted(q, c) == q,
{
}

/// Recording new conditions raises the controller's quality only when they
/// show a link faster than 6 Mbps, losing under 1% and answering within
/// 50 ms, and lowers it only when they show loss over 5%, a round trip over
/// 200 ms or less than 1 Mbps; either way by one level at most.
pub proof fn update_quality_law(c: AbcController, metrics: NetworkConditions, now: u64, c2: AbcController)
    requires
        metrics_outcome(c, metrics, now, c2),
    ensures
        rank(c2.quality()) > rank(c.quality()) ==> metrics.bandwidth_bps > 6_000_000
            && metrics.loss_below_upgrade_limit && metrics.rtt_us < 50_000,
        rank(c2.quality()) < rank(c.quality()) ==> metrics.loss_above_downgrade_limit || metrics.rtt_us
            > 200_000 || metrics.bandwidth_bps < 1_000_000,
        rank(c2.quality()) - rank(c.quality()) <= 1,
        rank(c.quality()) - rank(c2.quality()) <= 1,
{
    quality_change_law(c.quality(), metrics);
}

} // verus!
