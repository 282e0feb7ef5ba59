use vstd::prelude::*;

use crate::display::{id_views, DisplayState, DisplayStateV};
use crate::error::{Error, MMTParseError};

verus! {

/// The column of the monitor tool's tabular report that carries the
/// enabled flag.
pub const ACTIVE_COLUMN: usize = 3;

/// The column that carries the primary flag.
pub const PRIMARY_COLUMN: usize = 5;

/// The column that carries the device identifier.
pub const NAME_COLUMN: usize = 17;

/// The value of a Yes/No flag column; any other content is malformed.
pub open spec fn yes_no(s: Seq<char>) -> Option<bool> {
    if s == "Yes"@ {
        Some(true)
    } else if s == "No"@ {
        Some(false)
    } else {
        None
    }
}

/// Whether a report row has the required shape: Yes/No flags in the active
/// and primary columns and a device-identifier column present.
pub open spec fn record_shape_ok(f: Seq<Seq<char>>) -> bool {
    &&& f.len() > ACTIVE_COLUMN && yes_no(f[ACTIVE_COLUMN as int]) is Some
    &&& f.len() > PRIMARY_COLUMN && yes_no(f[PRIMARY_COLUMN as int]) is Some
    &&& f.len() > NAME_COLUMN
}

/// The first column at which a malformed row fails, in the order the
/// columns are checked: active flag, primary flag, identifier.
pub open spec fn record_error_index(f: Seq<Seq<char>>) -> usize {
    if !(f.len() > ACTIVE_COLUMN && yes_no(f[ACTIVE_COLUMN as int]) is Some) {
        ACTIVE_COLUMN
    } else if !(f.len() > PRIMARY_COLUMN && yes_no(f[PRIMARY_COLUMN as int]) is Some) {
        PRIMARY_COLUMN
    } else {
        NAME_COLUMN
    }
}

/// The expected shape named by the error for a failure at column `index`.
pub open spec fn record_error_description(index: usize) -> Seq<char> {
    if index == NAME_COLUMN {
        "should contain device ID"@
    } else {
        "should contain either Yes or No"@
    }
}

/// One parsed row of the monitor tool's report.
#[derive(Debug, Clone, PartialEq)]
pub struct ParsedRecord {
    pub enabled: bool,
    pub primary: bool,
    pub id: String,
}

fn yes_no_exec(s: &String) -> (r: Option<bool>)
    ensures
        r == yes_no(s@),
{
    let yes = String::from_str("Yes");
    if *s == yes {
        Some(true)
    } else {
        let no = String::from_str("No");
        if *s == no {
            Some(false)
        } else {
            None
        }
    }
}

/// Parse one row of the report.  Fails, naming the offending column, iff
/// the row misses one of the three required columns or a flag column is not
/// literally `Yes` or `No`; the earliest offending column decides the
/// error.
pub fn parse_display_record(record: &Vec<String>) -> (r: Result<ParsedRecord, Error>)
    ensures
        r is Ok <==> record_shape_ok(id_views(record@)),
        r matches Ok(p) ==> {
            &&& Some(p.enabled) == yes_no(record@[ACTIVE_COLUMN as int]@)
            &&& Some(p.primary) == yes_no(record@[PRIMARY_COLUMN as int]@)
            &&& p.id@ == record@[NAME_COLUMN as int]@
        },
        r matches Err(e) ==> e matches Error::MMTParseError(m) && m.output@ == record@ && m.index
            == record_error_index(id_views(record@)) && m.description@ == record_error_description(
            m.index,
        ),
{
    let enabled: bool = if record.len() > ACTIVE_COLUMN {
        match yes_no_exec(&record[ACTIVE_COLUMN]) {
            Some(b) => b,
            None => {
                return Err(
                    Error::MMTParseError(
                        MMTParseError {
                            output: record.clone(),
                            index: ACTIVE_COLUMN,
                            description: "should contain either Yes or No",
                        },
                    ),
                );
            },
        }
    } else {
        return Err(
            Error::MMTParseError(
                MMTParseError {
                    output: record.clone(),
                    index: ACTIVE_COLUMN,
                    description: "should contain either Yes or No",
                },
            ),
        );
    };
    let primary: bool = if record.len() > PRIMARY_COLUMN {
        match yes_no_exec(&record[PRIMARY_COLUMN]) {
            Some(b) => b,
            None => {
                return Err(
                    Error::MMTParseError(
                        MMTParseError {
                            output: record.clone(),
                            index: PRIMARY_COLUMN,
                            description: "should contain either Yes or No",
                        },
                    ),
                );
            },
        }
    } else {
        return Err(
            Error::MMTParseError(
                MMTParseError {
                    output: record.clone(),
                    index: PRIMARY_COLUMN,
                    description: "should contain either Yes or No",
                },
            ),
        );
    };
    if record.len() > NAME_COLUMN {
        Ok(ParsedRecord { enabled, primary, id: record[NAME_COLUMN].clone() })
    } else {
        Err(
            Error::MMTParseError(
                MMTParseError {
                    output: record.clone(),
                    index: NAME_COLUMN,
                    description: "should contain device ID",
                },
            ),
        )
    }
}

/// The character sequences of each field of each record.
pub open spec fn records_views(records: Seq<Vec<String>>) -> Seq<Seq<Seq<char>>> {
    records.map_values(|r: Vec<String>| id_views(r@))
}

/// Whether every record of the report has the required shape.
pub open spec fn all_records_ok(records: Seq<Seq<Seq<char>>>) -> bool {
    forall|k: int| 0 <= k < records.len() ==> record_shape_ok(#[trigger] records[k])
}

/// The display state a well-shaped report denotes, row by row: an enabled
/// row adds its identifier to the enabled list, a disabled row to the
/// disabled list, and the last row flagged primary names the primary
/// device, whether or not that row is enabled.
pub open spec fn display_state_from_records_spec(records: Seq<Seq<Seq<char>>>) -> DisplayStateV
    decreases records.len(),
{
    if records.len() == 0 {
        DisplayStateV {
            primary: Seq::<char>::empty(),
            enabled: Seq::<Seq<char>>::empty(),
            disabled: Seq::<Seq<char>>::empty(),
        }
    } else {
        let prev = display_state_from_records_spec(records.drop_last());
        let f = records.last();
        let en = yes_no(f[ACTIVE_COLUMN as int])->0;
        let pr = yes_no(f[PRIMARY_COLUMN as int])->0;
        let id = f[NAME_COLUMN as int];
        DisplayStateV {
            primary: if pr {
                id
            } else {
                prev.primary
            },
            enabled: if en {
                prev.enabled.push(id)
            } else {
                prev.enabled
            },
            disabled: if en {
                prev.disabled
            } else {
                prev.disabled.push(id)
            },
        }
    }
}

/// Assemble an observed display state from the rows of the monitor tool's
/// report.  Succeeds iff every row has the required shape; the first
/// malformed row decides the error.
pub fn display_state_from_records(records: &Vec<Vec<String>>) -> (r: Result<DisplayState, Error>)
    ensures
        r is Ok <==> all_records_ok(records_views(records@)),
        r matches Ok(st) ==> st@ == display_state_from_records_spec(records_views(records@)),
        r matches Err(e) ==> exists|k: int|
            {
                &&& 0 <= k < records@.len()
                &&& !record_shape_ok(#[trigger] records_views(records@)[k])
                &&& forall|j: int| 0 <= j < k ==> record_shape_ok(records_views(records@)[j])
                &&& e matches Error::MMTParseError(m) && m.output@ == records@[k]@ && m.index
                    == record_error_index(records_views(records@)[k]) && m.description@
                    == record_error_description(m.index)
            },
{
    let mut st = DisplayState::new();
    let mut i: usize = 0;
    proof {
        assert(st@ =~= display_state_from_records_spec(records_views(records@).take(0)));
    }
    while i < records.len()
        invariant
            i <= records@.len(),
            forall|j: int| 0 <= j < i ==> record_shape_ok(records_views(records@)[j]),
            st@ == display_state_from_records_spec(records_views(records@).take(i as int)),
        decreases records@.len() - i,
    {
        let parsed = match parse_display_record(&records[i]) {
            Ok(p) => p,
            Err(e) => {
                proof {
                    assert(records_views(records@)[i as int] == id_views(records@[i as int]@));
                }
                return Err(e);
            },
        };
        let ghost prev = st@;
        if parsed.primary {
            st.primary_device_id = parsed.id.clone();
        }
        if parsed.enabled {
            st.enabled_device_ids.push(parsed.id);
        } else {
            st.disabled_device_ids.push(parsed.id);
        }
        proof {
            let rv = records_views(records@);
            assert(rv.take(i + 1).drop_last() =~= rv.take(i as int));
            assert(rv.take(i + 1).last() == rv[i as int]);
            assert(rv[i as int] == id_views(records@[i as int]@));
            assert(st@ =~= display_state_from_records_spec(rv.take(i + 1)));
        }
        i = i + 1;
    }
    proof {
        assert(records_views(records@).take(i as int) =~= records_views(records@));
    }
    Ok(st)
}

} // verus!
