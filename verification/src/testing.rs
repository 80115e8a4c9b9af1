//! Helpers for preparing a database for exercising the library.

use vstd::prelude::*;
use vstd::string::{StringExecFns, StrSliceExecFns};
use crate::codes::MIMER_SUCCESS;
use crate::driver::Driver;

verus! {

/// Creates a databank for performing queries against: composes the
/// data-definition statement for the given databank name and executes it on
/// the session.
pub fn create_user_databank(driver: &mut Driver, sid: usize, databank_name: &str, rc: i32) -> (r:
    Result<i32, i32>)
    requires
        old(driver)@.wf(),
        sid < old(driver)@.sessions.len(),
        old(driver)@.sessions[sid as int].live,
        rc <= MIMER_SUCCESS,
    ensures
        final(driver)@ == old(driver)@,
        r == (if ("CREATE DATABANK "@ + databank_name@ + " "@).contains('\u{0}') {
            Err::<i32, i32>(crate::codes::ERR_INTERNAL)
        } else if rc < 0 {
            Err::<i32, i32>(rc)
        } else {
            Ok::<i32, i32>(MIMER_SUCCESS)
        }),
{
    proof {
        reveal_strlit("CREATE DATABANK ");
        reveal_strlit(" ");
    }
    let mut sql = String::from_str("CREATE DATABANK ");
    sql.append(databank_name);
    sql.append(" ");
    proof {
        assert(sql@ =~= "CREATE DATABANK "@ + databank_name@ + " "@);
    }
    driver.execute_statement(sid, sql.as_str(), rc)
}

} // verus!
