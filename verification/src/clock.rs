use vstd::prelude::*;

verus! {

/// Relies on std::time::SystemTime::now and chrono's Utc formatting to render
/// the current time as `%d/%m/%Y %T`. The result depends on the clock, so
/// nothing is promised of it: every contract that mentions a timestamp takes
/// it as an arbitrary string.
#[verifier::external_body]
pub fn get_time() -> String {
    let system_time = std::time::SystemTime::now();
    let time_stamp: chrono::DateTime<chrono::offset::Utc> = system_time.into();
    time_stamp.format("%d/%m/%Y %T").to_string()
}

} // verus!
