use vstd::prelude::*;

use crate::device::DeviceDescriptor;
use crate::device::DeviceType;
use crate::device::DeviceView;
use crate::device::spec_classify;
use crate::status::Status;
use crate::status::adapter_status_of;
use crate::status::battery_status_of;
use crate::status::resolve;

verus! {

/// Mathematical snapshot of a [`PowerSupply`] tracker.
pub ghost struct PowerSupplyView {
    pub bat: Option<DeviceView>,
    pub adp: Option<DeviceView>,
    pub status: Status,
    pub status_changed: bool,
}

/// Initial enumeration did not discover exactly one battery and one adapter
/// device: a fatal startup condition for the whole monitor.
#[derive(Clone, Copy, PartialEq, Eq, Structural, Debug)]
pub struct PopulationError {
    /// How many enumerated devices classified as batteries.
    pub batteries: usize,
    /// How many enumerated devices classified as adapters.
    pub adapters: usize,
}

/// Keeps the most recent battery and adapter snapshots, and the charging
/// status resolved from them together with a change-detection flag.
pub struct PowerSupply {
    bat: Option<DeviceDescriptor>,
    adp: Option<DeviceDescriptor>,
    status: Status,
    status_changed: bool,
}

impl View for PowerSupply {
    type V = PowerSupplyView;

    closed spec fn view(&self) -> PowerSupplyView {
        PowerSupplyView {
            bat: match self.bat {
                Some(d) => Some(d@),
                None => None,
            },
            adp: match self.adp {
                Some(d) => Some(d@),
                None => None,
            },
            status: self.status,
            status_changed: self.status_changed,
        }
    }
}

/// Views of a sequence of descriptors, in order.
pub open spec fn views_of(devs: Seq<DeviceDescriptor>) -> Seq<DeviceView> {
    devs.map_values(|d: DeviceDescriptor| d@)
}

/// Effect of ingesting one descriptor: a battery replaces the battery slot, an
/// adapter the adapter slot, an unclassifiable descriptor changes nothing.
pub open spec fn spec_ingest(t: PowerSupplyView, d: DeviceView) -> PowerSupplyView {
    match spec_classify(d) {
        Some(DeviceType::Battery) => PowerSupplyView {
            bat: Some(d),
            adp: t.adp,
            status: t.status,
            status_changed: t.status_changed,
        },
        Some(DeviceType::Adapter) => PowerSupplyView {
            bat: t.bat,
            adp: Some(d),
            status: t.status,
            status_changed: t.status_changed,
        },
        None => t,
    }
}

/// Effect of ingesting a batch of descriptors, first to last.
pub open spec fn spec_ingest_all(t: PowerSupplyView, devs: Seq<DeviceView>) -> PowerSupplyView
    decreases devs.len(),
{
    if devs.len() == 0 {
        t
    } else {
        spec_ingest(spec_ingest_all(t, devs.drop_last()), devs.last())
    }
}

/// Whether both device slots hold a snapshot.
pub open spec fn spec_populated(t: PowerSupplyView) -> bool {
    t.bat is Some && t.adp is Some
}

/// The status resolved from the held snapshots: the adapter reading when it is
/// conclusive, otherwise the battery reading; a missing snapshot reads as
/// `Unknown`.
pub open spec fn spec_resolved(t: PowerSupplyView) -> Status {
    let a = match t.adp {
        Some(d) => adapter_status_of(d.online),
        None => Status::Unknown,
    };
    let b = match t.bat {
        Some(d) => battery_status_of(d.status),
        None => Status::Unknown,
    };
    resolve(a, b)
}

/// Effect of one recomputation: the resolved status is stored, and the change
/// flag records whether it differs from the previously stored status.
pub open spec fn spec_recompute(t: PowerSupplyView) -> PowerSupplyView {
    PowerSupplyView {
        bat: t.bat,
        adp: t.adp,
        status: spec_resolved(t),
        status_changed: spec_resolved(t) != t.status,
    }
}

/// How many of `devs` classify as the given device type.
pub open spec fn count_of_type(devs: Seq<DeviceView>, ty: DeviceType) -> int
    decreases devs.len(),
{
    if devs.len() == 0 {
        0
    } else {
        count_of_type(devs.drop_last(), ty) + (if spec_classify(devs.last()) == Some(ty) {
            1int
        } else {
            0int
        })
    }
}

/// Whether an enumeration is exactly the population the monitor needs: one
/// battery and one adapter among the relevant devices.
pub open spec fn spec_two_device_population(devs: Seq<DeviceView>) -> bool {
    count_of_type(devs, DeviceType::Battery) == 1 && count_of_type(devs, DeviceType::Adapter) == 1
}

/// Ingesting a batch fills the battery slot whenever the batch holds a battery
/// or the slot was already filled, and likewise for the adapter slot.
pub proof fn lemma_ingest_all_populates(t: PowerSupplyView, devs: Seq<DeviceView>)
    ensures
        count_of_type(devs, DeviceType::Battery) >= 1 || t.bat is Some ==> spec_ingest_all(
            t,
            devs,
        ).bat is Some,
        count_of_type(devs, DeviceType::Adapter) >= 1 || t.adp is Some ==> spec_ingest_all(
            t,
            devs,
        ).adp is Some,
    decreases devs.len(),
{
    if devs.len() > 0 {
        lemma_ingest_all_populates(t, devs.drop_last());
    }
}

impl PowerSupply {
    /// Fresh tracker: no snapshots yet, status `Unknown`, change flag primed
    /// so that the first recomputation reports its result.
    pub fn new() -> (r: PowerSupply)
        ensures
            r@ == (PowerSupplyView {
                bat: None,
                adp: None,
                status: Status::Unknown,
                status_changed: true,
            }),
    {
        PowerSupply { bat: None, adp: None, status: Status::Unknown, status_changed: true }
    }

    /// Whether both a battery and an adapter snapshot have been seen.
    pub fn is_populated(&self) -> (r: bool)
        ensures
            r == spec_populated(self@),
    {
        self.bat.is_some() && self.adp.is_some()
    }

    /// The last computed charging status.
    pub fn charging_status(&self) -> (r: Status)
        ensures
            r == self@.status,
    {
        self.status
    }

    /// Whether the most recent recomputation changed the stored status.
    pub fn charging_status_changed(&self) -> (r: bool)
        ensures
            r == self@.status_changed,
    {
        self.status_changed
    }

    /// Classify one incoming descriptor and store it in its slot; an
    /// unclassifiable descriptor is silently ignored.
    pub fn ingest(&mut self, dev: DeviceDescriptor)
        ensures
            final (self)@ == spec_ingest(old(self)@, dev@),
    {
        match dev.device_type() {
            Some(DeviceType::Battery) => {
                self.bat = Some(dev);
            },
            Some(DeviceType::Adapter) => {
                self.adp = Some(dev);
            },
            None => {},
        }
    }

    /// Ingest every descriptor of a batch, first to last.
    fn ingest_batch(&mut self, devices: Vec<DeviceDescriptor>)
        ensures
            final (self)@ == spec_ingest_all(old(self)@, views_of(devices@)),
    {
        let ghost all = views_of(devices@);
        let ghost total: nat = all.len();
        let mut rest = devices;
        while rest.len() > 0
            invariant
                rest@.len() <= total == all.len(),
                forall|j: int|
                    0 <= j < rest@.len() ==> #[trigger] rest@[j]@ == all[total - rest@.len() + j],
                self@ == spec_ingest_all(old(self)@, all.take(total - rest@.len())),
            decreases rest@.len(),
        {
            let ghost done: int = total - rest@.len();
            let dev = rest.remove(0);
            proof {
                assert(dev@ == all[done]);
                assert(all.take(done + 1).drop_last() =~= all.take(done));
                assert(all.take(done + 1).last() == all[done]);
            }
            self.ingest(dev);
        }
        proof {
            assert(all.take(total as int) =~= all);
        }
    }

    /// One-time initial population: when either slot is still empty, take a
    /// full enumeration of the power-supply subsystem and ingest it, provided
    /// it holds exactly one battery and one adapter; any other population is
    /// reported as the fatal startup condition it is, and the tracker is left
    /// untouched. On a tracker that is already populated the enumeration is
    /// ignored.
    pub fn ensure_initial_population(&mut self, devices: Vec<DeviceDescriptor>) -> (r: Result<
        (),
        PopulationError,
    >)
        ensures
            spec_populated(old(self)@) ==> r is Ok && final (self)@ == old(self)@,
            !spec_populated(old(self)@) && spec_two_device_population(views_of(devices@)) ==> r
                is Ok && final (self)@ == spec_ingest_all(old(self)@, views_of(devices@)),
            !spec_populated(old(self)@) && !spec_two_device_population(views_of(devices@))
                ==> final (self)@ == old(self)@ && r == Err::<(), PopulationError>(
                (PopulationError {
                    batteries: count_of_type(views_of(devices@), DeviceType::Battery) as usize,
                    adapters: count_of_type(views_of(devices@), DeviceType::Adapter) as usize,
                }),
            ),
            r is Ok ==> spec_populated(final (self)@),
    {
        if self.is_populated() {
            return Ok(());
        }
        let ghost vs = views_of(devices@);
        let mut n_bat: usize = 0;
        let mut n_adp: usize = 0;
        let mut i: usize = 0;
        while i < devices.len()
            invariant
                i <= devices.len(),
                vs == views_of(devices@),
                vs.len() == devices@.len(),
                n_bat == count_of_type(vs.take(i as int), DeviceType::Battery),
                n_adp == count_of_type(vs.take(i as int), DeviceType::Adapter),
                n_bat <= i,
                n_adp <= i,
            decreases devices.len() - i,
        {
            proof {
                assert(vs.take(i + 1).drop_last() =~= vs.take(i as int));
                assert(vs.take(i + 1).last() == vs[i as int]);
                assert(vs[i as int] == devices@[i as int]@);
            }
            match devices[i].device_type() {
                Some(DeviceType::Battery) => {
                    n_bat = n_bat + 1;
                },
                Some(DeviceType::Adapter) => {
                    n_adp = n_adp + 1;
                },
                None => {},
            }
            i = i + 1;
        }
        proof {
            assert(vs.take(devices@.len() as int) =~= vs);
        }
        if n_bat != 1 || n_adp != 1 {
            return Err(PopulationError { batteries: n_bat, adapters: n_adp });
        }
        proof {
            lemma_ingest_all_populates(self@, vs);
        }
        self.ingest_batch(devices);
        Ok(())
    }

    /// Recompute the charging status from the held snapshots: the adapter
    /// reading wins when conclusive, otherwise the battery reading; the change
    /// flag records whether the stored status moved. Both snapshots must have
    /// been seen; run the initial population first.
    pub fn recompute_status(&mut self)
        requires
            spec_populated(old(self)@),
        ensures
            final (self)@ == spec_recompute(old(self)@),
    {
        let adapter_status = match &self.adp {
            Some(d) => Status::read_from_adapter_device(d),
            None => Status::Unknown,
        };
        let resolved = match adapter_status {
            Status::Unknown => match &self.bat {
                Some(d) => Status::read_from_battery_device(d),
                None => Status::Unknown,
            },
            s => s,
        };
        self.status_changed = resolved != self.status;
        self.status = resolved;
    }

    /// Drain-and-recompute cycle: ingest the batch of device-change events
    /// just delivered, then recompute the charging status once.
    pub fn update(&mut self, events: Vec<DeviceDescriptor>)
        requires
            spec_populated(old(self)@),
        ensures
            final (self)@ == spec_recompute(spec_ingest_all(old(self)@, views_of(events@))),
    {
        proof {
            lemma_ingest_all_populates(old(self)@, views_of(events@));
        }
        self.ingest_batch(events);
        self.recompute_status();
    }
}

impl Default for PowerSupply {
    /// Same tracker as [`PowerSupply::new`] produces.
    fn default() -> (r: PowerSupply)
        ensures
            r@ == (PowerSupplyView {
                bat: None,
                adp: None,
                status: Status::Unknown,
                status_changed: true,
            }),
    {
        PowerSupply::new()
    }
}

/// Idempotence of recomputation: with no ingest in between, a second
/// recomputation finds the status it just stored and reports no change.
pub proof fn lemma_recompute_idempotent(t: PowerSupplyView)
    ensures
        spec_recompute(spec_recompute(t)).status_changed == false,
{
}

/// Adapter-conclusive priority: when the held adapter snapshot reads
/// `Charging` or `Discharging`, recomputation stores exactly that reading,
/// whatever the battery snapshot says.
pub proof fn lemma_recompute_adapter_priority(t: PowerSupplyView)
    requires
        spec_populated(t),
        adapter_status_of(t.adp->Some_0.online) != Status::Unknown,
    ensures
        spec_recompute(t).status == adapter_status_of(t.adp->Some_0.online),
{
}

/// Adapter-`Unknown` fallback: when the held adapter snapshot is
/// inconclusive, recomputation stores exactly the battery reading.
pub proof fn lemma_recompute_battery_fallback(t: PowerSupplyView)
    requires
        spec_populated(t),
        adapter_status_of(t.adp->Some_0.online) == Status::Unknown,
    ensures
        spec_recompute(t).status == battery_status_of(t.bat->Some_0.status),
{
}

} // verus!
