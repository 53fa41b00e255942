//! The service that runs the instances of the daemon.
use vstd::prelude::*;

verus! {

/// The settings of the daemon that its service depends on.
#[derive(Clone, Copy, Debug, PartialEq, Eq, Structural)]
pub struct WorkerSettings {
    /// The number of instances that can run at a time.
    pub instance_limit: usize,
    /// The number of instances for which memory can be reserved ahead.
    pub max_instances: u32,
    /// Whether no memory is to be reserved ahead.
    pub no_mem_pool: bool,
    /// The memory that an instance may take, in bytes.
    pub instance_memory_size: u64,
    /// The number of compiled modules that are kept.
    pub module_cache_size: usize,
}

/// How the service is created.
#[derive(Debug)]
pub struct ServicePlan {
    pub threads: usize,
    pub module_cache_size: usize,
    pub blobs_dir: String,
    pub instance_memory_size: usize,
    pub pooled_instances: u32,
}

/// Why there is no worker.
#[derive(Debug)]
pub enum WorkerFailure<E> {
    MemorySize(core::num::TryFromIntError),
    Service(E),
}

impl<E> WorkerFailure<E> {
    /// What is said of the failure beside its cause.
    pub fn context(&self) -> (message: &'static str)
        ensures
            message@ == match *self {
                WorkerFailure::MemorySize(_) => "invalid memory size"@,
                WorkerFailure::Service(_) => "failed to create service"@,
            },
    {
        match self {
            WorkerFailure::MemorySize(_) => "invalid memory size",
            WorkerFailure::Service(_) => "failed to create service",
        }
    }
}

/// The number of threads of a service that can run `instances` instances at a time: two
/// more than that, as far as they can be counted.
pub open spec fn thread_count(instances: usize) -> usize {
    if instances + 2 > usize::MAX {
        usize::MAX
    } else {
        (instances + 2) as usize
    }
}

/// Plans the service of a worker whose blobs are in `blobs_dir`. It fails where the
/// memory of an instance is more than can be addressed.
pub fn crate_worker_state<E>(settings: WorkerSettings, blobs_dir: String) -> (plan: Result<
    ServicePlan,
    WorkerFailure<E>,
>)
    ensures
        settings.instance_memory_size > usize::MAX ==> plan == Err::<ServicePlan, WorkerFailure<E>>(
            WorkerFailure::MemorySize(
                <usize as vstd::std_specs::convert::TryFromSpec<u64>>::try_from_spec(
                    settings.instance_memory_size,
                )->Err_0,
            ),
        ),
        settings.instance_memory_size <= usize::MAX ==> plan == Ok::<ServicePlan, WorkerFailure<E>>(
            ServicePlan {
                threads: thread_count(settings.instance_limit),
                module_cache_size: settings.module_cache_size,
                blobs_dir,
                instance_memory_size: settings.instance_memory_size as usize,
                pooled_instances: if settings.no_mem_pool {
                    0
                } else {
                    settings.max_instances
                },
            },
        ),
        plan matches Ok(p) ==> {
            &&& p.threads == settings.instance_limit + 2 || (p.threads == usize::MAX
                && settings.instance_limit + 2 > usize::MAX)
            &&& p.instance_memory_size == settings.instance_memory_size
            &&& settings.no_mem_pool ==> p.pooled_instances == 0
            &&& !settings.no_mem_pool ==> p.pooled_instances == settings.max_instances
            &&& p.module_cache_size == settings.module_cache_size
            &&& p.blobs_dir == blobs_dir
        },
{
    let threads = settings.instance_limit.saturating_add(2);
    let instance_memory_size = match usize::try_from(settings.instance_memory_size) {
        Ok(size) => size,
        Err(error) => {
            return Err(WorkerFailure::MemorySize(error));
        },
    };
    Ok(
        ServicePlan {
            threads,
            module_cache_size: settings.module_cache_size,
            blobs_dir,
            instance_memory_size,
            pooled_instances: if settings.no_mem_pool {
                0
            } else {
                settings.max_instances
            },
        },
    )
}

/// The service of a worker, given what came of creating it.
pub fn created_service<S, E>(created: Result<S, E>) -> (service: Result<S, WorkerFailure<E>>)
    ensures
        service == match created {
            Ok(s) => Ok::<S, WorkerFailure<E>>(s),
            Err(cause) => Err(WorkerFailure::Service(cause)),
        },
{
    match created {
        Ok(s) => Ok(s),
        Err(cause) => Err(WorkerFailure::Service(cause)),
    }
}

/// There are more threads than instances, as far as they can be counted.
pub proof fn law_threads_exceed_instances(instances: usize)
    requires
        instances < usize::MAX,
    ensures
        instances < thread_count(instances) <= instances + 2,
        instances + 2 <= usize::MAX ==> thread_count(instances) == instances + 2,
{
}

} // verus!
