//! Decoding the job listing.
//!
//! The service answers with a JSON array of records. Each record nests the
//! job under `row`: its type and state (as a number in older versions of
//! the protocol, as a name in newer ones), its identifier, the obsid it was
//! made for (as text, under `job_params`), the message of an error, and
//! under `product` the files it delivers. A listing is decoded in two
//! steps: first every record is read as it stands ([`DummyJob`]), then each
//! is turned into an [`AsvoJob`], which checks the codes it holds.

use super::error::{AsvoError, Failure};
use super::json::{
    field_text, field_u32, field_u64, json_as_array, json_as_str, json_as_u64, json_document,
    json_get, json_is_null, json_of, jsons_of, parse_json, text_field, u32_field, u64_field,
    Json, JsonFault, JsonFaultKind,
};
use super::types::{
    file_entries, job_type_outcome, jobs_of, read_job_type, AsvoFilesArray,
    AsvoJob, AsvoJobID, AsvoJobState, AsvoJobType, AsvoJobVec, Delivery, FileEntry, Job,
    JobState,
};
use crate::obsid::{read_obsid, Obsid};
use crate::text::{clone_opt_text, copy_str, decimal, decimal_digits, opt_text, str_eq};
use serde_json::Value;
use vstd::prelude::*;

verus! {

/// A code as the service sends it: a number or a name.
#[derive(Debug)]
pub enum RawCode {
    Number(u64),
    Name(String),
}

/// The mathematical form of a [`RawCode`].
pub enum Code {
    Number(u64),
    Name(Seq<char>),
}

impl View for RawCode {
    type V = Code;

    open spec fn view(&self) -> Code {
        match self {
            RawCode::Number(n) => Code::Number(*n),
            RawCode::Name(s) => Code::Name(s@),
        }
    }
}

/// One file of a record, as it stands in the listing.
#[derive(Debug)]
pub struct DummyProduct {
    /// The name of the delivery.
    pub kind: String,
    pub url: Option<String>,
    pub path: Option<String>,
    pub size: u64,
    pub sha1: Option<String>,
}

/// The mathematical form of a [`DummyProduct`].
pub struct Product {
    pub kind: Seq<char>,
    pub url: Option<Seq<char>>,
    pub path: Option<Seq<char>>,
    pub size: u64,
    pub sha1: Option<Seq<char>>,
}

impl View for DummyProduct {
    type V = Product;

    open spec fn view(&self) -> Product {
        Product {
            kind: self.kind@,
            url: opt_text(self.url),
            path: opt_text(self.path),
            size: self.size,
            sha1: opt_text(self.sha1),
        }
    }
}

/// The mathematical form of a list of products.
pub open spec fn products(list: Seq<DummyProduct>) -> Seq<Product> {
    Seq::new(list.len(), |i: int| list[i]@)
}

/// The mathematical form of an optional list of products.
pub open spec fn opt_products(list: Option<Vec<DummyProduct>>) -> Option<Seq<Product>> {
    match list {
        Some(v) => Some(products(v@)),
        None => None,
    }
}

/// One record of the listing, as it stands there.
#[derive(Debug)]
pub struct DummyJob {
    pub job_type: RawCode,
    pub id: AsvoJobID,
    pub job_state: RawCode,
    /// The obsid, as text.
    pub obs_id: String,
    pub error_text: Option<String>,
    pub product: Option<Vec<DummyProduct>>,
}

/// The mathematical form of a [`DummyJob`].
pub struct Record {
    pub job_type: Code,
    pub id: AsvoJobID,
    pub job_state: Code,
    pub obs_id: Seq<char>,
    pub error_text: Option<Seq<char>>,
    pub product: Option<Seq<Product>>,
}

impl View for DummyJob {
    type V = Record;

    open spec fn view(&self) -> Record {
        Record {
            job_type: self.job_type@,
            id: self.id,
            job_state: self.job_state@,
            obs_id: self.obs_id@,
            error_text: opt_text(self.error_text),
            product: opt_products(self.product),
        }
    }
}

/// The mathematical form of a list of records.
pub open spec fn records(list: Seq<DummyJob>) -> Seq<Record> {
    Seq::new(list.len(), |i: int| list[i]@)
}

/// The code that a member is: an unsigned number or a string.
pub open spec fn code_of(member: Option<Json>) -> Option<Code> {
    match member {
        None => None,
        Some(m) => match m.unsigned() {
            Some(n) => Some(Code::Number(n)),
            None => match m.text() {
                Some(s) => Some(Code::Name(s)),
                None => None,
            },
        },
    }
}

/// A member that may be left out: absent or `null` it is nothing, a string
/// it is that text, and anything else does not fit (the outer `None`).
pub open spec fn optional_text_member(doc: Json, key: Seq<char>) -> Option<Option<Seq<char>>> {
    match doc.member(key) {
        None => Some(None),
        Some(m) => if m is Null {
            Some(None)
        } else {
            match m.text() {
                Some(s) => Some(Some(s)),
                None => None,
            }
        },
    }
}

/// The product that an entry of `files` is.
pub open spec fn product_of(entry: Json) -> Option<Product> {
    let kind = field_text(entry, "type"@);
    let url = optional_text_member(entry, "url"@);
    let path = optional_text_member(entry, "path"@);
    let size = field_u64(entry, "size"@);
    let sha1 = optional_text_member(entry, "sha1"@);
    if kind is Some && url is Some && path is Some && size is Some && sha1 is Some {
        Some(Product { kind: kind->0, url: url->0, path: path->0, size: size->0, sha1: sha1->0 })
    } else {
        None
    }
}

/// The products that the entries of `files` are, if all of them fit.
pub open spec fn products_of(entries: Seq<Json>) -> Option<Seq<Product>>
    decreases entries.len(),
{
    if entries.len() == 0 {
        Some(Seq::<Product>::empty())
    } else {
        match (products_of(entries.drop_last()), product_of(entries.last())) {
            (Some(before), Some(last)) => Some(before.push(last)),
            _ => None,
        }
    }
}

/// The files of a row: none where `product` is absent or `null`; else the
/// entries of the array `files` under it.
pub open spec fn product_section(row: Json) -> Option<Option<Seq<Product>>> {
    match row.member("product"@) {
        None => Some(None),
        Some(section) => if section is Null {
            Some(None)
        } else {
            match section.member("files"@) {
                None => None,
                Some(files) => match files.items() {
                    None => None,
                    Some(entries) => match products_of(entries) {
                        Some(list) => Some(Some(list)),
                        None => None,
                    },
                },
            }
        },
    }
}

/// The obsid of a row, as text: the string `obs_id` under `job_params`.
pub open spec fn obs_id_of(row: Json) -> Option<Seq<char>> {
    match row.member("job_params"@) {
        None => None,
        Some(params) => field_text(params, "obs_id"@),
    }
}

/// The record that an item of the listing is.
pub open spec fn record_of(item: Json) -> Option<Record> {
    match item.member("row"@) {
        None => None,
        Some(row) => {
            let job_type = code_of(row.member("job_type"@));
            let id = field_u32(row, "id"@);
            let job_state = code_of(row.member("job_state"@));
            let obs_id = obs_id_of(row);
            let error_text = optional_text_member(row, "error_text"@);
            let product = product_section(row);
            if job_type is Some && id is Some && job_state is Some && obs_id is Some
                && error_text is Some && product is Some {
                Some(
                    Record {
                        job_type: job_type->0,
                        id: id->0,
                        job_state: job_state->0,
                        obs_id: obs_id->0,
                        error_text: error_text->0,
                        product: product->0,
                    },
                )
            } else {
                None
            }
        },
    }
}

/// The records that the items of a listing are, if all of them fit.
pub open spec fn records_of(items: Seq<Json>) -> Option<Seq<Record>>
    decreases items.len(),
{
    if items.len() == 0 {
        Some(Seq::<Record>::empty())
    } else {
        match (records_of(items.drop_last()), record_of(items.last())) {
            (Some(before), Some(last)) => Some(before.push(last)),
            _ => None,
        }
    }
}

/// The records of a listing: the document must be an array of records.
pub open spec fn listing_records(doc: Json) -> Option<Seq<Record>> {
    match doc.items() {
        None => None,
        Some(items) => records_of(items),
    }
}

fn read_code(member: Option<&Value>) -> (r: Option<RawCode>)
    ensures
        match r {
            Some(code) => code_of(
                match member {
                    Some(m) => Some(json_of(*m)),
                    None => None,
                },
            ) == Some(code@),
            None => code_of(
                match member {
                    Some(m) => Some(json_of(*m)),
                    None => None,
                },
            ) is None,
        },
{
    match member {
        None => None,
        Some(m) => match json_as_u64(m) {
            Some(n) => Some(RawCode::Number(n)),
            None => match json_as_str(m) {
                Some(s) => Some(RawCode::Name(copy_str(s))),
                None => None,
            },
        },
    }
}

/// The mathematical form of what [`read_optional_text`] returns.
pub open spec fn opt_opt_text(r: Option<Option<String>>) -> Option<Option<Seq<char>>> {
    match r {
        Some(inner) => Some(opt_text(inner)),
        None => None,
    }
}

fn read_optional_text(doc: &Value, key: &str) -> (r: Option<Option<String>>)
    ensures
        opt_opt_text(r) == optional_text_member(json_of(*doc), key@),
{
    match json_get(doc, key) {
        None => Some(None),
        Some(m) => {
            if json_is_null(m) {
                Some(None)
            } else {
                match json_as_str(m) {
                    Some(s) => Some(Some(copy_str(s))),
                    None => None,
                }
            }
        },
    }
}

/// The mathematical form of an optional product.
pub open spec fn opt_product(r: Option<DummyProduct>) -> Option<Product> {
    match r {
        Some(p) => Some(p@),
        None => None,
    }
}

/// Reads one entry of `files`.
pub fn read_product(entry: &Value) -> (r: Option<DummyProduct>)
    ensures
        opt_product(r) == product_of(json_of(*entry)),
{
    let kind = text_field(entry, "type");
    let url = read_optional_text(entry, "url");
    let path = read_optional_text(entry, "path");
    let size = u64_field(entry, "size");
    let sha1 = read_optional_text(entry, "sha1");
    match (kind, url, path, size, sha1) {
        (Some(kind), Some(url), Some(path), Some(size), Some(sha1)) => Some(
            DummyProduct { kind, url, path, size, sha1 },
        ),
        _ => None,
    }
}

fn read_products(entries: &Vec<Value>) -> (r: Option<Vec<DummyProduct>>)
    ensures
        opt_products(r) == products_of(jsons_of(entries@)),
{
    let ghost all = jsons_of(entries@);
    let mut list: Vec<DummyProduct> = Vec::new();
    let mut i: usize = 0;
    proof {
        assert(all.take(0) =~= Seq::<Json>::empty());
        assert(products(list@) =~= Seq::<Product>::empty());
    }
    while i < entries.len()
        invariant
            i <= entries.len(),
            all == jsons_of(entries@),
            products_of(all.take(i as int)) == Some(products(list@)),
        decreases entries.len() - i,
    {
        proof {
            assert(all.take(i + 1).drop_last() == all.take(i as int));
            assert(all.take(i + 1).last() == json_of(entries@[i as int]));
        }
        match read_product(&entries[i]) {
            Some(p) => {
                proof {
                    assert(products(list@.push(p)) =~= products(list@).push(p@));
                }
                list.push(p);
            },
            None => {
                proof {
                    lemma_products_fail(all, i + 1);
                }
                return None;
            },
        }
        i += 1;
    }
    proof {
        assert(all.take(entries.len() as int) == all);
    }
    Some(list)
}

/// Once a prefix of the entries does not fit, the whole list does not.
proof fn lemma_products_fail(entries: Seq<Json>, k: int)
    requires
        0 <= k <= entries.len(),
        products_of(entries.take(k)) is None,
    ensures
        products_of(entries) is None,
    decreases entries.len() - k,
{
    if k == entries.len() {
        assert(entries.take(k) == entries);
    } else {
        assert(entries.take(k + 1).drop_last() == entries.take(k));
        lemma_products_fail(entries, k + 1);
    }
}

/// The mathematical form of what [`read_product_section`] returns.
pub open spec fn opt_opt_products(r: Option<Option<Vec<DummyProduct>>>) -> Option<
    Option<Seq<Product>>,
> {
    match r {
        Some(inner) => Some(opt_products(inner)),
        None => None,
    }
}

fn read_product_section(row: &Value) -> (r: Option<Option<Vec<DummyProduct>>>)
    ensures
        opt_opt_products(r) == product_section(json_of(*row)),
{
    match json_get(row, "product") {
        None => Some(None),
        Some(section) => {
            if json_is_null(section) {
                return Some(None);
            }
            match json_get(section, "files") {
                None => None,
                Some(files) => match json_as_array(files) {
                    None => None,
                    Some(entries) => match read_products(entries) {
                        Some(list) => Some(Some(list)),
                        None => None,
                    },
                },
            }
        },
    }
}

fn read_obs_id(row: &Value) -> (r: Option<String>)
    ensures
        opt_text(r) == obs_id_of(json_of(*row)),
{
    match json_get(row, "job_params") {
        None => None,
        Some(params) => text_field(params, "obs_id"),
    }
}

/// The mathematical form of an optional record.
pub open spec fn opt_record(r: Option<DummyJob>) -> Option<Record> {
    match r {
        Some(job) => Some(job@),
        None => None,
    }
}

/// Reads one item of the listing.
pub fn read_record(item: &Value) -> (r: Option<DummyJob>)
    ensures
        opt_record(r) == record_of(json_of(*item)),
{
    let row = match json_get(item, "row") {
        None => {
            return None;
        },
        Some(row) => row,
    };
    let job_type = read_code(json_get(row, "job_type"));
    let id = u32_field(row, "id");
    let job_state = read_code(json_get(row, "job_state"));
    let obs_id = read_obs_id(row);
    let error_text = read_optional_text(row, "error_text");
    let product = read_product_section(row);
    match (job_type, id, job_state, obs_id, error_text, product) {
        (
            Some(job_type),
            Some(id),
            Some(job_state),
            Some(obs_id),
            Some(error_text),
            Some(product),
        ) => Some(DummyJob { job_type, id, job_state, obs_id, error_text, product }),
        _ => None,
    }
}

/// The mathematical form of an optional list of records.
pub open spec fn opt_records(r: Option<Vec<DummyJob>>) -> Option<Seq<Record>> {
    match r {
        Some(list) => Some(records(list@)),
        None => None,
    }
}

/// Once a prefix of the items does not fit, the whole listing does not.
proof fn lemma_records_fail(items: Seq<Json>, k: int)
    requires
        0 <= k <= items.len(),
        records_of(items.take(k)) is None,
    ensures
        records_of(items) is None,
    decreases items.len() - k,
{
    if k == items.len() {
        assert(items.take(k) == items);
    } else {
        assert(items.take(k + 1).drop_last() == items.take(k));
        lemma_records_fail(items, k + 1);
    }
}

/// Reads the records of a parsed listing.
pub fn read_listing(doc: &Value) -> (r: Option<Vec<DummyJob>>)
    ensures
        opt_records(r) == listing_records(json_of(*doc)),
{
    let items = match json_as_array(doc) {
        None => {
            return None;
        },
        Some(items) => items,
    };
    let ghost all = jsons_of(items@);
    let mut list: Vec<DummyJob> = Vec::new();
    let mut i: usize = 0;
    proof {
        assert(all.take(0) =~= Seq::<Json>::empty());
        assert(records(list@) =~= Seq::<Record>::empty());
    }
    while i < items.len()
        invariant
            i <= items.len(),
            all == jsons_of(items@),
            listing_records(json_of(*doc)) == records_of(all),
            records_of(all.take(i as int)) == Some(records(list@)),
        decreases items.len() - i,
    {
        proof {
            assert(all.take(i + 1).drop_last() == all.take(i as int));
            assert(all.take(i + 1).last() == json_of(items@[i as int]));
        }
        match read_record(&items[i]) {
            Some(job) => {
                proof {
                    assert(records(list@.push(job)) =~= records(list@).push(job@));
                }
                list.push(job);
            },
            None => {
                proof {
                    lemma_records_fail(all, i + 1);
                }
                return None;
            },
        }
        i += 1;
    }
    proof {
        assert(all.take(items.len() as int) == all);
    }
    Some(list)
}

/// The delivery that a name of the listing stands for.
pub open spec fn delivery_named(kind: Seq<char>) -> Option<Delivery> {
    if kind == "acacia"@ {
        Some(Delivery::Acacia)
    } else if kind == "dug"@ {
        Some(Delivery::Dug)
    } else if kind == "scratch"@ {
        Some(Delivery::Scratch)
    } else {
        None
    }
}

/// The file that a product of job `jobid` is; its delivery must be known.
pub open spec fn file_of(jobid: AsvoJobID, p: Product) -> Result<FileEntry, Failure> {
    match delivery_named(p.kind) {
        Some(delivery) => Ok(
            FileEntry { delivery, url: p.url, path: p.path, size: p.size, sha1: p.sha1 },
        ),
        None => Err(Failure::InvalidFileType { job_id: jobid }),
    }
}

/// The files that the products of a job are, or the fault of the first
/// that is none.
pub open spec fn files_of(jobid: AsvoJobID, list: Seq<Product>) -> Result<Seq<FileEntry>, Failure>
    decreases list.len(),
{
    if list.len() == 0 {
        Ok(Seq::<FileEntry>::empty())
    } else {
        match files_of(jobid, list.drop_last()) {
            Err(fault) => Err(fault),
            Ok(before) => match file_of(jobid, list.last()) {
                Ok(file) => Ok(before.push(file)),
                Err(fault) => Err(fault),
            },
        }
    }
}

/// The type of job that a number of the protocol stands for.
pub open spec fn job_type_numbered(n: u64) -> Option<AsvoJobType> {
    if n == 0 {
        Some(AsvoJobType::Conversion)
    } else if n == 1 {
        Some(AsvoJobType::DownloadVisibilities)
    } else if n == 2 {
        Some(AsvoJobType::DownloadMetadata)
    } else if n == 3 {
        Some(AsvoJobType::DownloadVoltage)
    } else if n == 4 {
        Some(AsvoJobType::CancelJob)
    } else {
        None
    }
}

/// The type of job that a code stands for. A name is read as leniently as
/// one typed by the user.
pub open spec fn job_type_coded(code: Code) -> Result<AsvoJobType, Failure> {
    match code {
        Code::Number(n) => match job_type_numbered(n) {
            Some(t) => Ok(t),
            None => Err(Failure::InvalidJobType { str: decimal_digits(n as nat) }),
        },
        Code::Name(s) => read_job_type(s),
    }
}

/// The state that a number of the protocol stands for; `message` is what
/// goes with an error.
pub open spec fn job_state_numbered(n: u64, message: Seq<char>) -> Option<JobState> {
    if n == 0 {
        Some(JobState::Queued)
    } else if n == 1 {
        Some(JobState::Processing)
    } else if n == 2 {
        Some(JobState::Ready)
    } else if n == 3 {
        Some(JobState::Error(message))
    } else if n == 4 {
        Some(JobState::Expired)
    } else if n == 5 {
        Some(JobState::Cancelled)
    } else {
        None
    }
}

/// The state that a name of the listing stands for; `message` is what goes
/// with an error. The names are those of the service, letter for letter.
pub open spec fn job_state_listed(name: Seq<char>, message: Seq<char>) -> Option<JobState> {
    if name == "queued"@ {
        Some(JobState::Queued)
    } else if name == "waitcal"@ {
        Some(JobState::WaitCal)
    } else if name == "staging"@ {
        Some(JobState::Staging)
    } else if name == "staged"@ {
        Some(JobState::Staged)
    } else if name == "downloading"@ {
        Some(JobState::Downloading)
    } else if name == "preprocessing"@ {
        Some(JobState::Preprocessing)
    } else if name == "preparing"@ {
        Some(JobState::Preparing)
    } else if name == "imaging"@ {
        Some(JobState::Imaging)
    } else if name == "delivering"@ {
        Some(JobState::Delivering)
    } else if name == "completed"@ {
        Some(JobState::Ready)
    } else if name == "error"@ {
        Some(JobState::Error(message))
    } else if name == "expired"@ {
        Some(JobState::Expired)
    } else if name == "cancelled"@ {
        Some(JobState::Cancelled)
    } else {
        None
    }
}

/// The two ways of writing a state come to the same: the name of a state
/// in newer versions of the protocol stands for the state that its number
/// stood for in older ones.
pub proof fn lemma_state_codes_agree(message: Seq<char>)
    ensures
        job_state_listed("queued"@, message) == job_state_numbered(0, message),
        job_state_listed("completed"@, message) == job_state_numbered(2, message),
        job_state_listed("error"@, message) == job_state_numbered(3, message),
        job_state_listed("expired"@, message) == job_state_numbered(4, message),
        job_state_listed("cancelled"@, message) == job_state_numbered(5, message),
        job_state_listed("completed"@, message) == Some(JobState::Ready),
        job_state_listed("error"@, message) == Some(JobState::Error(message)),
{
    reveal_strlit("queued");
    reveal_strlit("waitcal");
    reveal_strlit("staging");
    reveal_strlit("staged");
    reveal_strlit("downloading");
    reveal_strlit("preprocessing");
    reveal_strlit("preparing");
    reveal_strlit("imaging");
    reveal_strlit("delivering");
    reveal_strlit("completed");
    reveal_strlit("error");
    reveal_strlit("expired");
    reveal_strlit("cancelled");
    // Names of one length differ in a letter; the others differ in length.
    assert("queued"@.len() == 6 && "staged"@.len() == 6);
    assert("waitcal"@.len() == 7 && "staging"@.len() == 7 && "imaging"@.len() == 7);
    assert("downloading"@.len() == 11 && "preprocessing"@.len() == 13);
    assert("preparing"@.len() == 9 && "delivering"@.len() == 10);
    assert("completed"@.len() == 9 && "error"@.len() == 5);
    assert("expired"@.len() == 7 && "cancelled"@.len() == 9);
    assert("completed"@[0] != "preparing"@[0]);
    assert("expired"@[0] != "waitcal"@[0]);
    assert("expired"@[0] != "staging"@[0]);
    assert("expired"@[0] != "imaging"@[0]);
    assert("cancelled"@[0] != "preparing"@[0]);
    assert("cancelled"@[1] != "completed"@[1]);
}

/// The message that goes with an error: the text of the record, or nothing
/// where the record has none.
pub open spec fn message_of(error_text: Option<Seq<char>>) -> Seq<char> {
    match error_text {
        Some(m) => m,
        None => Seq::<char>::empty(),
    }
}

/// The state that a code stands for.
pub open spec fn job_state_coded(code: Code, error_text: Option<Seq<char>>) -> Result<
    JobState,
    Failure,
> {
    match code {
        Code::Number(n) => match job_state_numbered(n, message_of(error_text)) {
            Some(state) => Ok(state),
            None => Err(Failure::InvalidJobState { str: decimal_digits(n as nat) }),
        },
        Code::Name(s) => match job_state_listed(s, message_of(error_text)) {
            Some(state) => Ok(state),
            None => Err(Failure::InvalidJobState { str: s }),
        },
    }
}

/// The files of a record, where it has any.
pub open spec fn record_files(r: Record) -> Result<Option<Seq<FileEntry>>, Failure> {
    match r.product {
        None => Ok(None),
        Some(list) => match files_of(r.id, list) {
            Ok(files) => Ok(Some(files)),
            Err(fault) => Err(fault),
        },
    }
}

/// The job that a record is. Its files, its obsid, its type and its state
/// are checked in this order, and the first that is at fault decides the
/// error: a delivery that is not known, an obsid that is not a number of
/// ten digits, a type or a state outside the known ones.
pub open spec fn job_of(r: Record) -> Result<Job, Failure> {
    match record_files(r) {
        Err(fault) => Err(fault),
        Ok(files) => match read_obsid(r.obs_id) {
            Err(_) => Err(Failure::BadJson(JsonFaultKind::Layout)),
            Ok(obsid) => match job_type_coded(r.job_type) {
                Err(fault) => Err(fault),
                Ok(jtype) => match job_state_coded(r.job_state, r.error_text) {
                    Err(fault) => Err(fault),
                    Ok(state) => Ok(Job { obsid, jobid: r.id, jtype, state, files }),
                },
            },
        },
    }
}

/// The jobs that the records of a listing are, or the fault of the first
/// record that is no job.
pub open spec fn jobs_of_records(list: Seq<Record>) -> Result<Seq<Job>, Failure>
    decreases list.len(),
{
    if list.len() == 0 {
        Ok(Seq::<Job>::empty())
    } else {
        match jobs_of_records(list.drop_last()) {
            Err(fault) => Err(fault),
            Ok(before) => match job_of(list.last()) {
                Ok(job) => Ok(before.push(job)),
                Err(fault) => Err(fault),
            },
        }
    }
}

/// The listing that a parsed document is.
pub open spec fn listing_of(doc: Option<Json>) -> Result<Seq<Job>, Failure> {
    match doc {
        None => Err(Failure::BadJson(JsonFaultKind::Syntax)),
        Some(json) => match listing_records(json) {
            None => Err(Failure::BadJson(JsonFaultKind::Layout)),
            Some(list) => jobs_of_records(list),
        },
    }
}

/// The mathematical form of the result of a conversion to files.
pub open spec fn files_result(r: Result<Vec<AsvoFilesArray>, AsvoError>) -> Result<
    Seq<FileEntry>,
    Failure,
> {
    match r {
        Ok(files) => Ok(file_entries(files@)),
        Err(e) => Err(e@),
    }
}

/// The mathematical form of the result of a conversion to a job.
pub open spec fn job_result(r: Result<AsvoJob, AsvoError>) -> Result<Job, Failure> {
    match r {
        Ok(job) => Ok(job@),
        Err(e) => Err(e@),
    }
}

/// The mathematical form of the result of decoding a listing.
pub open spec fn listing_result(r: Result<AsvoJobVec, AsvoError>) -> Result<Seq<Job>, Failure> {
    match r {
        Ok(jobs) => Ok(jobs@),
        Err(e) => Err(e@),
    }
}

fn delivery_from_name(kind: &str) -> (r: Option<Delivery>)
    ensures
        r == delivery_named(kind@),
{
    if str_eq(kind, "acacia") {
        Some(Delivery::Acacia)
    } else if str_eq(kind, "dug") {
        Some(Delivery::Dug)
    } else if str_eq(kind, "scratch") {
        Some(Delivery::Scratch)
    } else {
        None
    }
}

/// Once a prefix of the products has failed, the whole list fails the same
/// way.
proof fn lemma_files_fail(jobid: AsvoJobID, list: Seq<Product>, k: int)
    requires
        0 <= k <= list.len(),
        files_of(jobid, list.take(k)) is Err,
    ensures
        files_of(jobid, list) == files_of(jobid, list.take(k)),
    decreases list.len() - k,
{
    if k == list.len() {
        assert(list.take(k) == list);
    } else {
        assert(list.take(k + 1).drop_last() == list.take(k));
        lemma_files_fail(jobid, list, k + 1);
    }
}

/// Once a prefix of the records has failed, the whole listing fails the
/// same way.
proof fn lemma_jobs_fail(list: Seq<Record>, k: int)
    requires
        0 <= k <= list.len(),
        jobs_of_records(list.take(k)) is Err,
    ensures
        jobs_of_records(list) == jobs_of_records(list.take(k)),
    decreases list.len() - k,
{
    if k == list.len() {
        assert(list.take(k) == list);
    } else {
        assert(list.take(k + 1).drop_last() == list.take(k));
        lemma_jobs_fail(list, k + 1);
    }
}

/// Turns the products of a record into files.
pub fn convert_products(jobid: AsvoJobID, list: &Vec<DummyProduct>) -> (r: Result<
    Vec<AsvoFilesArray>,
    AsvoError,
>)
    ensures
        files_result(r) == files_of(jobid, products(list@)),
{
    let ghost all = products(list@);
    let mut files: Vec<AsvoFilesArray> = Vec::new();
    let mut i: usize = 0;
    proof {
        assert(all.take(0) =~= Seq::<Product>::empty());
        assert(file_entries(files@) =~= Seq::<FileEntry>::empty());
    }
    while i < list.len()
        invariant
            i <= list.len(),
            all == products(list@),
            files_of(jobid, all.take(i as int)) == Ok::<Seq<FileEntry>, Failure>(
                file_entries(files@),
            ),
        decreases list.len() - i,
    {
        let p = &list[i];
        proof {
            assert(all.take(i + 1).drop_last() == all.take(i as int));
            assert(all.take(i + 1).last() == p@);
        }
        match delivery_from_name(p.kind.as_str()) {
            Some(delivery) => {
                let file = AsvoFilesArray {
                    delivery,
                    url: clone_opt_text(&p.url),
                    path: clone_opt_text(&p.path),
                    size: p.size,
                    sha1: clone_opt_text(&p.sha1),
                };
                proof {
                    assert(file_entries(files@.push(file)) =~= file_entries(files@).push(file@));
                }
                files.push(file);
            },
            None => {
                proof {
                    assert(files_of(jobid, all.take(i + 1)) == Err::<Seq<FileEntry>, Failure>(
                        Failure::InvalidFileType { job_id: jobid },
                    ));
                    lemma_files_fail(jobid, all, i + 1);
                }
                return Err(AsvoError::InvalidFileType { job_id: jobid });
            },
        }
        i += 1;
    }
    proof {
        assert(all.take(list.len() as int) == all);
    }
    Ok(files)
}

/// Reads the type of a job from its code.
pub fn job_type_from_code(code: &RawCode) -> (r: Result<AsvoJobType, AsvoError>)
    ensures
        job_type_outcome(r) == job_type_coded(code@),
{
    match code {
        RawCode::Number(n) => {
            if *n == 0 {
                Ok(AsvoJobType::Conversion)
            } else if *n == 1 {
                Ok(AsvoJobType::DownloadVisibilities)
            } else if *n == 2 {
                Ok(AsvoJobType::DownloadMetadata)
            } else if *n == 3 {
                Ok(AsvoJobType::DownloadVoltage)
            } else if *n == 4 {
                Ok(AsvoJobType::CancelJob)
            } else {
                Err(AsvoError::InvalidJobType { str: decimal(*n) })
            }
        },
        RawCode::Name(s) => AsvoJobType::parse(s.as_str()),
    }
}

/// Reads the state of a job from its code; `message` is what goes with an
/// error.
pub fn job_state_from_code(code: &RawCode, message: String) -> (r: Result<
    AsvoJobState,
    AsvoError,
>)
    ensures
        super::types::job_state_outcome(r) == job_state_coded(code@, Some(message@)),
{
    match code {
        RawCode::Number(n) => {
            if *n == 0 {
                Ok(AsvoJobState::Queued)
            } else if *n == 1 {
                Ok(AsvoJobState::Processing)
            } else if *n == 2 {
                Ok(AsvoJobState::Ready)
            } else if *n == 3 {
                Ok(AsvoJobState::Error(message))
            } else if *n == 4 {
                Ok(AsvoJobState::Expired)
            } else if *n == 5 {
                Ok(AsvoJobState::Cancelled)
            } else {
                Err(AsvoError::InvalidJobState { str: decimal(*n) })
            }
        },
        RawCode::Name(s) => {
            let name = s.as_str();
            if str_eq(name, "queued") {
                Ok(AsvoJobState::Queued)
            } else if str_eq(name, "waitcal") {
                Ok(AsvoJobState::WaitCal)
            } else if str_eq(name, "staging") {
                Ok(AsvoJobState::Staging)
            } else if str_eq(name, "staged") {
                Ok(AsvoJobState::Staged)
            } else if str_eq(name, "downloading") {
                Ok(AsvoJobState::Downloading)
            } else if str_eq(name, "preprocessing") {
                Ok(AsvoJobState::Preprocessing)
            } else if str_eq(name, "preparing") {
                Ok(AsvoJobState::Preparing)
            } else if str_eq(name, "imaging") {
                Ok(AsvoJobState::Imaging)
            } else if str_eq(name, "delivering") {
                Ok(AsvoJobState::Delivering)
            } else if str_eq(name, "completed") {
                Ok(AsvoJobState::Ready)
            } else if str_eq(name, "error") {
                Ok(AsvoJobState::Error(message))
            } else if str_eq(name, "expired") {
                Ok(AsvoJobState::Expired)
            } else if str_eq(name, "cancelled") {
                Ok(AsvoJobState::Cancelled)
            } else {
                Err(AsvoError::InvalidJobState { str: s.clone() })
            }
        },
    }
}

impl DummyJob {
    /// Turns a record as it stands in the listing into a job. A record
    /// whose codes are outside the known ones is an error, never a guess.
    pub fn convert_to_real_job(self) -> (r: Result<AsvoJob, AsvoError>)
        ensures
            job_result(r) == job_of(self@),
    {
        self.to_job()
    }

    /// As [`DummyJob::convert_to_real_job`], leaving the record in place.
    pub fn to_job(&self) -> (r: Result<AsvoJob, AsvoError>)
        ensures
            job_result(r) == job_of(self@),
    {
        let files = match &self.product {
            None => None,
            Some(list) => match convert_products(self.id, list) {
                Ok(files) => Some(files),
                Err(e) => {
                    return Err(e);
                },
            },
        };
        let obsid = match Obsid::parse(self.obs_id.as_str()) {
            Ok(obsid) => obsid,
            Err(_) => {
                return Err(AsvoError::BadJson(JsonFault::Layout));
            },
        };
        let jtype = match job_type_from_code(&self.job_type) {
            Ok(jtype) => jtype,
            Err(e) => {
                return Err(e);
            },
        };
        let message = match &self.error_text {
            Some(m) => m.clone(),
            None => String::new(),
        };
        let state = match job_state_from_code(&self.job_state, message) {
            Ok(state) => state,
            Err(e) => {
                return Err(e);
            },
        };
        Ok(AsvoJob { obsid, jobid: self.id, jtype, state, files })
    }
}

/// Turns the records of a listing into jobs, in order. The first record
/// that is no job makes the whole listing fail with its error.
pub fn convert_records(list: &Vec<DummyJob>) -> (r: Result<AsvoJobVec, AsvoError>)
    ensures
        listing_result(r) == jobs_of_records(records(list@)),
{
    let ghost all = records(list@);
    let mut turned: Vec<AsvoJob> = Vec::new();
    let mut i: usize = 0;
    proof {
        assert(all.take(0) =~= Seq::<Record>::empty());
        assert(jobs_of(turned@) =~= Seq::<Job>::empty());
    }
    while i < list.len()
        invariant
            i <= list.len(),
            all == records(list@),
            jobs_of_records(all.take(i as int)) == Ok::<Seq<Job>, Failure>(jobs_of(turned@)),
        decreases list.len() - i,
    {
        proof {
            assert(all.take(i + 1).drop_last() == all.take(i as int));
            assert(all.take(i + 1).last() == list@[i as int]@);
        }
        match list[i].to_job() {
            Ok(job) => {
                proof {
                    assert(jobs_of(turned@.push(job)) =~= jobs_of(turned@).push(job@));
                }
                turned.push(job);
            },
            Err(e) => {
                proof {
                    assert(jobs_of_records(all.take(i + 1)) == Err::<Seq<Job>, Failure>(e@));
                    lemma_jobs_fail(all, i + 1);
                }
                return Err(e);
            },
        }
        i += 1;
    }
    proof {
        assert(all.take(list.len() as int) == all);
    }
    Ok(AsvoJobVec(turned))
}

/// Decodes a parsed listing.
pub fn decode_listing(doc: &Value) -> (r: Result<AsvoJobVec, AsvoError>)
    ensures
        listing_result(r) == listing_of(Some(json_of(*doc))),
{
    match read_listing(doc) {
        None => Err(AsvoError::BadJson(JsonFault::Layout)),
        Some(list) => convert_records(&list),
    }
}

/// Decodes the body of the answer to a request for the job listing: every
/// job of the listing, in the order of the listing, or a decode error if
/// the body is not JSON, is no array of records, or holds a record whose
/// codes are outside the known ones.
pub fn parse_asvo_json(json: &str) -> (r: Result<AsvoJobVec, AsvoError>)
    ensures
        listing_result(r) == listing_of(json_document(json@)),
{
    match parse_json(json) {
        Ok(doc) => decode_listing(&doc),
        Err(e) => Err(AsvoError::BadJson(JsonFault::Syntax(e))),
    }
}

} // verus!
