//! One device's readings for one scrape: the typed form of one output row,
//! and the parser that coerces the row's nineteen tokens.

use vstd::prelude::*;

use crate::num::i64_token_val;
use crate::num::is_i64_token;
use crate::num::parse_i64;
use crate::tokens::row_tokens;
use crate::tokens::split;
use crate::tokens::trim;
use crate::tokens::trim_all;
use crate::tokens::split_trim;
use crate::tokens::trimmed_copy;
use crate::value::GaugeValue;
use crate::value::dec_value;
use crate::value::is_dec_token;
use crate::value::parse_dec;

verus! {

/// How a row can be rejected: the wrong number of fields, or one field
/// (named by position) that does not parse.
#[derive(Clone, Copy, PartialEq, Eq, Structural, Debug)]
pub enum RowError {
    Length,
    Field(usize),
}

/// A scrape-level parse failure: which row failed, and how.
#[derive(Clone, Copy, PartialEq, Eq, Structural, Debug)]
pub struct ScrapeError {
    pub line: usize,
    pub kind: RowError,
}

/// A performance-state token: one leading state-class character, stripped
/// before the integer is read.
pub open spec fn is_pstate_token(s: Seq<char>) -> bool {
    s.len() >= 1 && is_i64_token(s.skip(1))
}

/// The integer a performance-state token denotes.
pub open spec fn pstate_val(s: Seq<char>) -> int {
    i64_token_val(s.skip(1))
}

/// Parses a performance-state token by dropping its first character.
pub fn parse_pstate(s: &str) -> (r: Option<i64>)
    ensures
        r is Some <==> is_pstate_token(s@),
        r is Some ==> r->0 == pstate_val(s@),
{
    let len = s.unicode_len();
    if len == 0 {
        return None;
    }
    let body = s.substring_char(1, len);
    proof {
        assert(body@ =~= s@.skip(1));
    }
    parse_i64(body)
}

/// The number of fields in one row, and what each position holds:
/// index, name, driver version, firmware version, total memory, used
/// memory, memory utilization, compute capability, temperature, device
/// utilization, fan speed, performance state, power limit, power draw, and
/// five clock readings.
pub const ROW_FIELDS: usize = 19;

/// Whether field `i` of a row parses.  The first four fields are labels and
/// the power-draw field falls back to zero, so those always do.
pub open spec fn field_ok(toks: Seq<Seq<char>>, i: int) -> bool {
    if i == 4 || i == 5 || i == 6 || i == 8 || i == 9 || i == 10 || (14 <= i <= 18) {
        is_i64_token(toks[i])
    } else if i == 7 || i == 12 {
        is_dec_token(toks[i])
    } else if i == 11 {
        is_pstate_token(toks[i])
    } else {
        true
    }
}

/// A well-formed row: nineteen trimmed tokens, every numeric one parsable.
pub open spec fn wf_row(toks: Seq<Seq<char>>) -> bool {
    toks.len() == ROW_FIELDS && forall|i: int| 0 <= i < ROW_FIELDS ==> field_ok(toks, i)
}

/// The value the power-draw field yields: zero whenever the token is not a
/// decimal numeral, since some devices report no power telemetry.
pub open spec fn power_draw_value(t: Seq<char>) -> GaugeValue {
    if is_dec_token(t) {
        dec_value(t)
    } else {
        GaugeValue::spec_zero()
    }
}

/// One device's typed readings from one scrape.
#[derive(Debug)]
pub struct DeviceSample {
    pub index: String,
    pub name: String,
    pub driver_version: String,
    pub vbios_version: String,
    pub memory_total: i64,
    pub memory_used: i64,
    pub utilization_memory: i64,
    pub compute_cap: GaugeValue,
    pub temperature: i64,
    pub utilization_gpu: i64,
    pub fan_speed: i64,
    pub performance_state: i64,
    pub power_limit: GaugeValue,
    pub power_draw: GaugeValue,
    pub clock_graphics: i64,
    pub clock_memory: i64,
    pub clock_video: i64,
    pub clock_max_graphics: i64,
    pub clock_max_memory: i64,
}

/// The sample's fields are exactly the row's tokens under the declared
/// coercions: the label fields verbatim, the numeric fields as the numbers
/// their tokens denote.
pub open spec fn sample_matches(s: DeviceSample, toks: Seq<Seq<char>>) -> bool {
    &&& s.index@ == toks[0]
    &&& s.name@ == toks[1]
    &&& s.driver_version@ == toks[2]
    &&& s.vbios_version@ == toks[3]
    &&& s.memory_total == i64_token_val(toks[4])
    &&& s.memory_used == i64_token_val(toks[5])
    &&& s.utilization_memory == i64_token_val(toks[6])
    &&& s.compute_cap == dec_value(toks[7])
    &&& s.temperature == i64_token_val(toks[8])
    &&& s.utilization_gpu == i64_token_val(toks[9])
    &&& s.fan_speed == i64_token_val(toks[10])
    &&& s.performance_state == pstate_val(toks[11])
    &&& s.power_limit == dec_value(toks[12])
    &&& s.power_draw == power_draw_value(toks[13])
    &&& s.clock_graphics == i64_token_val(toks[14])
    &&& s.clock_memory == i64_token_val(toks[15])
    &&& s.clock_video == i64_token_val(toks[16])
    &&& s.clock_max_graphics == i64_token_val(toks[17])
    &&& s.clock_max_memory == i64_token_val(toks[18])
}

/// All numeric fields of a well-formed sample carry well-formed values.
pub open spec fn sample_wf(s: DeviceSample) -> bool {
    s.compute_cap.wf() && s.power_limit.wf() && s.power_draw.wf()
}

/// A row error describes the given tokens: the length variant names a row
/// of the wrong width, the field variant the first position that fails.
pub open spec fn row_err_matches(kind: RowError, toks: Seq<Seq<char>>) -> bool {
    match kind {
        RowError::Length => toks.len() != ROW_FIELDS,
        RowError::Field(i) => toks.len() == ROW_FIELDS && !field_ok(toks, i as int) && forall|
            j: int,
        | 0 <= j < i ==> field_ok(toks, j),
    }
}

/// Parses one output row into a device sample.  The row is split on commas
/// and each token trimmed; the tokens are coerced by position.  A row of
/// the wrong width, or the first numeric token that does not parse, is
/// reported; only the power-draw field is forgiven and read as zero.
pub fn parse_row(line: &str) -> (r: Result<DeviceSample, RowError>)
    ensures
        r is Ok <==> wf_row(row_tokens(line@)),
        r is Ok ==> sample_matches(r->Ok_0, row_tokens(line@)) && sample_wf(r->Ok_0),
        r is Err ==> row_err_matches(r->Err_0, row_tokens(line@)),
{
    let toks = split_trim(line, ',');
    let ghost ts = row_tokens(line@);
    proof {
        assert(forall|k: int| 0 <= k < toks@.len() ==> (#[trigger] toks@[k])@ == ts[k]);
    }
    if toks.len() != ROW_FIELDS {
        return Err(RowError::Length);
    }
    let memory_total = match parse_i64(toks[4].as_str()) {
        Option::Some(v) => v,
        Option::None => {
            proof {
                assert(!field_ok(ts, 4));
                assert(row_err_matches(RowError::Field(4), ts));
            }
            return Err(RowError::Field(4));
        },
    };
    let memory_used = match parse_i64(toks[5].as_str()) {
        Option::Some(v) => v,
        Option::None => {
            proof {
                assert(!field_ok(ts, 5));
                assert(row_err_matches(RowError::Field(5), ts));
            }
            return Err(RowError::Field(5));
        },
    };
    let utilization_memory = match parse_i64(toks[6].as_str()) {
        Option::Some(v) => v,
        Option::None => {
            proof {
                assert(!field_ok(ts, 6));
                assert(row_err_matches(RowError::Field(6), ts));
            }
            return Err(RowError::Field(6));
        },
    };
    let compute_cap = match parse_dec(toks[7].as_str()) {
        Option::Some(v) => v,
        Option::None => {
            proof {
                assert(!field_ok(ts, 7));
                assert(row_err_matches(RowError::Field(7), ts));
            }
            return Err(RowError::Field(7));
        },
    };
    let temperature = match parse_i64(toks[8].as_str()) {
        Option::Some(v) => v,
        Option::None => {
            proof {
                assert(!field_ok(ts, 8));
                assert(row_err_matches(RowError::Field(8), ts));
            }
            return Err(RowError::Field(8));
        },
    };
    let utilization_gpu = match parse_i64(toks[9].as_str()) {
        Option::Some(v) => v,
        Option::None => {
            proof {
                assert(!field_ok(ts, 9));
                assert(row_err_matches(RowError::Field(9), ts));
            }
            return Err(RowError::Field(9));
        },
    };
    let fan_speed = match parse_i64(toks[10].as_str()) {
        Option::Some(v) => v,
        Option::None => {
            proof {
                assert(!field_ok(ts, 10));
                assert(row_err_matches(RowError::Field(10), ts));
            }
            return Err(RowError::Field(10));
        },
    };
    let performance_state = match parse_pstate(toks[11].as_str()) {
        Option::Some(v) => v,
        Option::None => {
            proof {
                assert(!field_ok(ts, 11));
                assert(row_err_matches(RowError::Field(11), ts));
            }
            return Err(RowError::Field(11));
        },
    };
    let power_limit = match parse_dec(toks[12].as_str()) {
        Option::Some(v) => v,
        Option::None => {
            proof {
                assert(!field_ok(ts, 12));
                assert(row_err_matches(RowError::Field(12), ts));
            }
            return Err(RowError::Field(12));
        },
    };
    let power_draw = match parse_dec(toks[13].as_str()) {
        Option::Some(v) => v,
        Option::None => GaugeValue::zero(),
    };
    let clock_graphics = match parse_i64(toks[14].as_str()) {
        Option::Some(v) => v,
        Option::None => {
            proof {
                assert(!field_ok(ts, 14));
                assert(row_err_matches(RowError::Field(14), ts));
            }
            return Err(RowError::Field(14));
        },
    };
    let clock_memory = match parse_i64(toks[15].as_str()) {
        Option::Some(v) => v,
        Option::None => {
            proof {
                assert(!field_ok(ts, 15));
                assert(row_err_matches(RowError::Field(15), ts));
            }
            return Err(RowError::Field(15));
        },
    };
    let clock_video = match parse_i64(toks[16].as_str()) {
        Option::Some(v) => v,
        Option::None => {
            proof {
                assert(!field_ok(ts, 16));
                assert(row_err_matches(RowError::Field(16), ts));
            }
            return Err(RowError::Field(16));
        },
    };
    let clock_max_graphics = match parse_i64(toks[17].as_str()) {
        Option::Some(v) => v,
        Option::None => {
            proof {
                assert(!field_ok(ts, 17));
                assert(row_err_matches(RowError::Field(17), ts));
            }
            return Err(RowError::Field(17));
        },
    };
    let clock_max_memory = match parse_i64(toks[18].as_str()) {
        Option::Some(v) => v,
        Option::None => {
            proof {
                assert(!field_ok(ts, 18));
                assert(row_err_matches(RowError::Field(18), ts));
            }
            return Err(RowError::Field(18));
        },
    };
    proof {
        assert(forall|i: int| 0 <= i < ROW_FIELDS ==> field_ok(ts, i));
    }
    let index = toks[0].clone();
    let name = toks[1].clone();
    let driver_version = toks[2].clone();
    let vbios_version = toks[3].clone();
    Ok(
        DeviceSample {
            index,
            name,
            driver_version,
            vbios_version,
            memory_total,
            memory_used,
            utilization_memory,
            compute_cap,
            temperature,
            utilization_gpu,
            fan_speed,
            performance_state,
            power_limit,
            power_draw,
            clock_graphics,
            clock_memory,
            clock_video,
            clock_max_graphics,
            clock_max_memory,
        },
    )
}

/// The rows of one scrape's output: the output trimmed as a whole, split
/// into lines, each line trimmed.  Output that is all whitespace has no
/// rows.
pub open spec fn output_lines(out: Seq<char>) -> Seq<Seq<char>> {
    if trim(out).len() == 0 {
        Seq::empty()
    } else {
        trim_all(split(trim(out), '\n'))
    }
}

/// Parses a whole scrape's output, one device sample per line.  The first
/// malformed row rejects the scrape.
pub fn parse_output(out: &str) -> (r: Result<Vec<DeviceSample>, ScrapeError>)
    ensures
        r is Ok <==> (forall|i: int|
            0 <= i < output_lines(out@).len() ==> wf_row(
                row_tokens(#[trigger] output_lines(out@)[i]),
            )),
        r is Ok ==> r->Ok_0@.len() == output_lines(out@).len() && forall|i: int|
            0 <= i < output_lines(out@).len() ==> sample_matches(
                #[trigger] r->Ok_0@[i],
                row_tokens(output_lines(out@)[i]),
            ) && sample_wf(r->Ok_0@[i]),
        r is Err ==> r->Err_0.line < output_lines(out@).len() && !wf_row(
            row_tokens(output_lines(out@)[r->Err_0.line as int]),
        ) && row_err_matches(
            r->Err_0.kind,
            row_tokens(output_lines(out@)[r->Err_0.line as int]),
        ) && forall|j: int|
            0 <= j < r->Err_0.line ==> wf_row(row_tokens(#[trigger] output_lines(out@)[j])),
{
    let len = out.unicode_len();
    let whole = trimmed_copy(out, 0, len);
    proof {
        assert(out@.subrange(0, len as int) =~= out@);
    }
    let mut samples: Vec<DeviceSample> = Vec::new();
    if whole.as_str().unicode_len() == 0 {
        return Ok(samples);
    }
    let lines = split_trim(whole.as_str(), '\n');
    let ghost ls = output_lines(out@);
    proof {
        assert(forall|k: int| 0 <= k < lines@.len() ==> (#[trigger] lines@[k])@ == ls[k]);
    }
    let n = lines.len();
    let mut i: usize = 0;
    while i < n
        invariant
            i <= n,
            ls == output_lines(out@),
            n == ls.len(),
            forall|k: int| 0 <= k < lines@.len() ==> (#[trigger] lines@[k])@ == ls[k],
            lines@.len() == n,
            samples@.len() == i,
            forall|j: int| 0 <= j < i ==> wf_row(row_tokens(#[trigger] ls[j])),
            forall|j: int|
                0 <= j < i ==> sample_matches(#[trigger] samples@[j], row_tokens(ls[j]))
                    && sample_wf(samples@[j]),
        decreases n - i,
    {
        match parse_row(lines[i].as_str()) {
            Result::Ok(s) => {
                samples.push(s);
            },
            Result::Err(kind) => {
                return Err(ScrapeError { line: i, kind });
            },
        }
        i = i + 1;
    }
    Ok(samples)
}

} // verus!
