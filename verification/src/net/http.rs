use vstd::prelude::*;
use crate::logger::{decimal_digits, padded_int, push_padded, push_str};

verus! {

/// The seed of the TLS random generator: the tick count in the low half,
/// the UTC time in the high half.
pub fn tls_seed(ticks: u32, utc: u32) -> (res: u64)
    ensures
        res == ticks as u64 + (utc as u64) * 0x1_0000_0000,
{
    let r = (ticks as u64) | ((utc as u64) << 32);
    assert(r == ticks as u64 + (utc as u64) * 0x1_0000_0000) by (bit_vector)
        requires
            r == (ticks as u64) | ((utc as u64) << 32),
    ;
    r
}

/// The headers of a request: the client's own two, then those of the caller.
pub fn request_headers<'a>(headers: &[(&'a str, &'a str)]) -> (res: Vec<(&'a str, &'a str)>)
    ensures
        res@.len() == headers@.len() + 2,
        res@[0].0@ == "User-Agent"@ && res@[0].1@ == "MreEngine/3.0"@,
        res@[1].0@ == "Connection"@ && res@[1].1@ == "close"@,
        forall|i: int| 0 <= i < headers@.len() ==> res@[i + 2] == headers@[i],
{
    let mut all: Vec<(&'a str, &'a str)> = Vec::new();
    all.push(("User-Agent", "MreEngine/3.0"));
    all.push(("Connection", "close"));
    let mut i: usize = 0;
    while i < headers.len()
        invariant
            i <= headers@.len(),
            all@.len() == i + 2,
            all@[0].0@ == "User-Agent"@ && all@[0].1@ == "MreEngine/3.0"@,
            all@[1].0@ == "Connection"@ && all@[1].1@ == "close"@,
            forall|k: int| 0 <= k < i ==> all@[k + 2] == headers@[k],
        decreases headers@.len() - i,
    {
        all.push(headers[i]);
        i = i + 1;
    }
    all
}

/// Whether a response's status code is a success: 200 to 299.
pub open spec fn is_successful(status: u16) -> bool {
    200 <= status <= 299
}

/// The outcome a response's status stands for: success, or the error
/// `Server returned HTTP <code>`.
pub fn check_status(status: u16) -> (res: Result<(), String>)
    ensures
        is_successful(status) ==> res is Ok,
        !is_successful(status) ==> (res matches Err(e) && e@ == "Server returned HTTP "@ + decimal_digits(status as nat)),
{
    if 200 <= status && status <= 299 {
        Ok(())
    } else {
        let mut msg = String::new();
        push_str(&mut msg, "Server returned HTTP ");
        push_padded(&mut msg, status as i64, 0);
        assert(padded_int(status as int, 0) =~= decimal_digits(status as nat));
        Err(msg)
    }
}

/// One read of a response body into `chunk`, whose outcome was `read`:
/// a count of zero ends the body, a positive count appends that many bytes
/// of the chunk, a failed read ends with the error `Body read error`.
/// Returns none while the body goes on, the outcome once it is over.
pub fn body_read_step(body: &mut Vec<u8>, chunk: &[u8], read: Result<usize, ()>) -> (res: Option<Result<(), String>>)
    requires
        read matches Ok(n) ==> n <= chunk@.len(),
    ensures
        read == Ok::<usize, ()>(0) ==> res == Some(Ok::<(), String>(())) && final(body)@ == old(body)@,
        read matches Ok(n) ==> (n > 0 ==> res is None && final(body)@ == old(body)@ + chunk@.take(n as int)),
        read is Err ==> (res matches Some(Err(e)) && e@ == "Body read error"@) && final(body)@ == old(body)@,
{
    match read {
        Ok(0) => Some(Ok(())),
        Ok(n) => {
            let ghost start = body@;
            let mut i: usize = 0;
            while i < n
                invariant
                    n <= chunk@.len(),
                    i <= n,
                    body@ == start + chunk@.take(i as int),
                decreases n - i,
            {
                body.push(chunk[i]);
                assert(chunk@.take(i + 1) =~= chunk@.take(i as int).push(chunk@[i as int]));
                i = i + 1;
            }
            None
        },
        Err(()) => Some(Err("Body read error".to_owned())),
    }
}

} // verus!
