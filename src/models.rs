//! The records exchanged with the internal-api plugin. Each one is encoded
//! as a field record whose names are the camelCase forms of its fields, in
//! the order in which the fields are declared.
use vstd::prelude::*;

use crate::wire::{
    bytes_field, camel_case, copy_bytes, distinct_keys, field_names, lemma_key_once, read_bytes,
    read_text, read_unsigned, record_model, text_field, unsigned_field, FaultModel, FieldModel,
    ValueModel, WireError, WireField, WireValue,
};

verus! {

/// The credentials of a signed-in device.
#[derive(Debug, Clone)]
pub struct AuthDetails {
    pub device_id: String,
    pub access_token: String,
    pub refresh_token: String,
}

/// The content of [`AuthDetails`].
pub ghost struct AuthDetailsModel {
    pub device_id: Seq<char>,
    pub access_token: Seq<char>,
    pub refresh_token: Seq<char>,
}

impl View for AuthDetails {
    type V = AuthDetailsModel;

    open spec fn view(&self) -> AuthDetailsModel {
        AuthDetailsModel {
            device_id: self.device_id@,
            access_token: self.access_token@,
            refresh_token: self.refresh_token@,
        }
    }
}

impl Default for AuthDetails {
    fn default() -> (r: AuthDetails)
        ensures
            r@.device_id.len() == 0,
            r@.access_token.len() == 0,
            r@.refresh_token.len() == 0,
    {
        AuthDetails {
            device_id: String::new(),
            access_token: String::new(),
            refresh_token: String::new(),
        }
    }
}

impl AuthDetails {
    /// The field record of a value.
    pub open spec fn wire_encoding(v: AuthDetailsModel) -> Seq<FieldModel> {
        seq![
            ("deviceId"@, ValueModel::Text(v.device_id)),
            ("accessToken"@, ValueModel::Text(v.access_token)),
            ("refreshToken"@, ValueModel::Text(v.refresh_token)),
        ]
    }

    /// The value that a field record holds, or the failure of the first field
    /// that cannot be read.
    pub open spec fn wire_decoding(r: Seq<FieldModel>) -> Result<AuthDetailsModel, FaultModel> {
        let device_id = text_field(r, "deviceId"@);
        let access_token = text_field(r, "accessToken"@);
        let refresh_token = text_field(r, "refreshToken"@);
        if device_id is Err {
            Err(device_id->Err_0)
        } else if access_token is Err {
            Err(access_token->Err_0)
        } else if refresh_token is Err {
            Err(refresh_token->Err_0)
        } else {
            Ok(AuthDetailsModel {
                device_id: device_id->Ok_0,
                access_token: access_token->Ok_0,
                refresh_token: refresh_token->Ok_0,
            })
        }
    }

    /// Encodes this value as a field record.
    pub fn to_wire(&self) -> (r: Vec<WireField>)
        ensures
            record_model(r@) == Self::wire_encoding(self@),
    {
        let r = vec![
            WireField {
                key: "deviceId".to_owned(),
                value: WireValue::Text(self.device_id.clone()),
            },
            WireField {
                key: "accessToken".to_owned(),
                value: WireValue::Text(self.access_token.clone()),
            },
            WireField {
                key: "refreshToken".to_owned(),
                value: WireValue::Text(self.refresh_token.clone()),
            },
        ];
        assert(record_model(r@) =~= Self::wire_encoding(self@));
        r
    }

    /// Decodes a value from a field record.
    pub fn from_wire(rec: &Vec<WireField>) -> (r: Result<AuthDetails, WireError>)
        ensures
            match Self::wire_decoding(record_model(rec@)) {
                Ok(v) => r matches Ok(x) && x@ == v,
                Err(f) => r matches Err(e) && e@ == f,
            },
    {
        let device_id = match read_text(rec, &"deviceId".to_owned()) {
            Ok(x) => x,
            Err(e) => return Err(e),
        };
        let access_token = match read_text(rec, &"accessToken".to_owned()) {
            Ok(x) => x,
            Err(e) => return Err(e),
        };
        let refresh_token = match read_text(rec, &"refreshToken".to_owned()) {
            Ok(x) => x,
            Err(e) => return Err(e),
        };
        Ok(AuthDetails { device_id, access_token, refresh_token })
    }
}

/// Decoding the field record of an AuthDetails gives back the same value.
pub proof fn auth_details_round_trip(v: AuthDetails)
    ensures
        AuthDetails::wire_decoding(AuthDetails::wire_encoding(v@))
            == Ok::<AuthDetailsModel, FaultModel>(v@),
{
    let r = AuthDetails::wire_encoding(v@);
    reveal_strlit("deviceId");
    reveal_strlit("accessToken");
    reveal_strlit("refreshToken");
    assert(distinct_keys(r)) by {
        assert("deviceId"@.len() == 8);
        assert("accessToken"@.len() == 11);
        assert("refreshToken"@.len() == 12);
    }
    lemma_key_once(r, 0);
    lemma_key_once(r, 1);
    lemma_key_once(r, 2);
}

/// The field names of an AuthDetails on the wire are `deviceId`, `accessToken`, `refreshToken`, in
/// that order: the camelCase forms of the names of its fields.
pub proof fn auth_details_wire_names(v: AuthDetails)
    ensures
        field_names(AuthDetails::wire_encoding(v@))
            == seq!["deviceId"@, "accessToken"@, "refreshToken"@],
        field_names(AuthDetails::wire_encoding(v@))
            == seq![
                camel_case("device_id"@),
                camel_case("access_token"@),
                camel_case("refresh_token"@),
            ],
{
    reveal_strlit("device_id");
    reveal_strlit("deviceId");
    reveal_strlit("access_token");
    reveal_strlit("accessToken");
    reveal_strlit("refresh_token");
    reveal_strlit("refreshToken");
    reveal_with_fuel(camel_case, 14);
    assert(camel_case("device_id"@) =~= "deviceId"@);
    assert(camel_case("access_token"@) =~= "accessToken"@);
    assert(camel_case("refresh_token"@) =~= "refreshToken"@);
    assert(field_names(AuthDetails::wire_encoding(v@))
        =~= seq!["deviceId"@, "accessToken"@, "refreshToken"@]);
}

/// The user's preferences.
#[derive(Debug, Clone)]
pub struct Preferences {
    pub region: String,
}

/// The content of [`Preferences`].
pub ghost struct PreferencesModel {
    pub region: Seq<char>,
}

impl View for Preferences {
    type V = PreferencesModel;

    open spec fn view(&self) -> PreferencesModel {
        PreferencesModel {
            region: self.region@,
        }
    }
}

impl Default for Preferences {
    fn default() -> (r: Preferences)
        ensures
            r@.region.len() == 0,
    {
        Preferences { region: String::new() }
    }
}

impl Preferences {
    /// The field record of a value.
    pub open spec fn wire_encoding(v: PreferencesModel) -> Seq<FieldModel> {
        seq![
            ("region"@, ValueModel::Text(v.region)),
        ]
    }

    /// The value that a field record holds, or the failure of the first field
    /// that cannot be read.
    pub open spec fn wire_decoding(r: Seq<FieldModel>) -> Result<PreferencesModel, FaultModel> {
        let region = text_field(r, "region"@);
        if region is Err {
            Err(region->Err_0)
        } else {
            Ok(PreferencesModel { region: region->Ok_0 })
        }
    }

    /// Encodes this value as a field record.
    pub fn to_wire(&self) -> (r: Vec<WireField>)
        ensures
            record_model(r@) == Self::wire_encoding(self@),
    {
        let r = vec![
            WireField { key: "region".to_owned(), value: WireValue::Text(self.region.clone()) },
        ];
        assert(record_model(r@) =~= Self::wire_encoding(self@));
        r
    }

    /// Decodes a value from a field record.
    pub fn from_wire(rec: &Vec<WireField>) -> (r: Result<Preferences, WireError>)
        ensures
            match Self::wire_decoding(record_model(rec@)) {
                Ok(v) => r matches Ok(x) && x@ == v,
                Err(f) => r matches Err(e) && e@ == f,
            },
    {
        let region = match read_text(rec, &"region".to_owned()) {
            Ok(x) => x,
            Err(e) => return Err(e),
        };
        Ok(Preferences { region })
    }
}

/// Decoding the field record of a Preferences gives back the same value.
pub proof fn preferences_round_trip(v: Preferences)
    ensures
        Preferences::wire_decoding(Preferences::wire_encoding(v@))
            == Ok::<PreferencesModel, FaultModel>(v@),
{
    let r = Preferences::wire_encoding(v@);
    reveal_strlit("region");
    lemma_key_once(r, 0);
}

/// The field names of a Preferences on the wire are `region`, in that order: the camelCase forms of
/// the names of its fields.
pub proof fn preferences_wire_names(v: Preferences)
    ensures
        field_names(Preferences::wire_encoding(v@)) == seq!["region"@],
        field_names(Preferences::wire_encoding(v@))
            == seq![camel_case("region"@)],
{
    reveal_strlit("region");
    reveal_with_fuel(camel_case, 7);
    assert(camel_case("region"@) =~= "region"@);
    assert(field_names(Preferences::wire_encoding(v@))
        =~= seq!["region"@]);
}

/// The request that changes the selected region.
#[derive(Debug)]
pub struct SetRegionArgs {
    pub region: String,
}

/// The content of [`SetRegionArgs`].
pub ghost struct SetRegionArgsModel {
    pub region: Seq<char>,
}

impl View for SetRegionArgs {
    type V = SetRegionArgsModel;

    open spec fn view(&self) -> SetRegionArgsModel {
        SetRegionArgsModel {
            region: self.region@,
        }
    }
}

impl SetRegionArgs {
    /// The field record of a value.
    pub open spec fn wire_encoding(v: SetRegionArgsModel) -> Seq<FieldModel> {
        seq![
            ("region"@, ValueModel::Text(v.region)),
        ]
    }

    /// The value that a field record holds, or the failure of the first field
    /// that cannot be read.
    pub open spec fn wire_decoding(r: Seq<FieldModel>) -> Result<SetRegionArgsModel, FaultModel> {
        let region = text_field(r, "region"@);
        if region is Err {
            Err(region->Err_0)
        } else {
            Ok(SetRegionArgsModel { region: region->Ok_0 })
        }
    }

    /// Encodes this value as a field record.
    pub fn to_wire(&self) -> (r: Vec<WireField>)
        ensures
            record_model(r@) == Self::wire_encoding(self@),
    {
        let r = vec![
            WireField { key: "region".to_owned(), value: WireValue::Text(self.region.clone()) },
        ];
        assert(record_model(r@) =~= Self::wire_encoding(self@));
        r
    }

    /// Decodes a value from a field record.
    pub fn from_wire(rec: &Vec<WireField>) -> (r: Result<SetRegionArgs, WireError>)
        ensures
            match Self::wire_decoding(record_model(rec@)) {
                Ok(v) => r matches Ok(x) && x@ == v,
                Err(f) => r matches Err(e) && e@ == f,
            },
    {
        let region = match read_text(rec, &"region".to_owned()) {
            Ok(x) => x,
            Err(e) => return Err(e),
        };
        Ok(SetRegionArgs { region })
    }
}

/// Decoding the field record of a SetRegionArgs gives back the same value.
pub proof fn set_region_args_round_trip(v: SetRegionArgs)
    ensures
        SetRegionArgs::wire_decoding(SetRegionArgs::wire_encoding(v@))
            == Ok::<SetRegionArgsModel, FaultModel>(v@),
{
    let r = SetRegionArgs::wire_encoding(v@);
    reveal_strlit("region");
    lemma_key_once(r, 0);
}

/// The field names of a SetRegionArgs on the wire are `region`, in that order: the camelCase forms
/// of the names of its fields.
pub proof fn set_region_args_wire_names(v: SetRegionArgs)
    ensures
        field_names(SetRegionArgs::wire_encoding(v@)) == seq!["region"@],
        field_names(SetRegionArgs::wire_encoding(v@))
            == seq![camel_case("region"@)],
{
    reveal_strlit("region");
    reveal_with_fuel(camel_case, 7);
    assert(camel_case("region"@) =~= "region"@);
    assert(field_names(SetRegionArgs::wire_encoding(v@))
        =~= seq!["region"@]);
}

/// A named time interval scoped to a region.
#[derive(Debug, Clone)]
pub struct Moment {
    pub id: String,
    pub region: String,
    pub start_date: String,
    pub end_date: String,
}

/// The content of [`Moment`].
pub ghost struct MomentModel {
    pub id: Seq<char>,
    pub region: Seq<char>,
    pub start_date: Seq<char>,
    pub end_date: Seq<char>,
}

impl View for Moment {
    type V = MomentModel;

    open spec fn view(&self) -> MomentModel {
        MomentModel {
            id: self.id@,
            region: self.region@,
            start_date: self.start_date@,
            end_date: self.end_date@,
        }
    }
}

impl Default for Moment {
    fn default() -> (r: Moment)
        ensures
            r@.id.len() == 0,
            r@.region.len() == 0,
            r@.start_date.len() == 0,
            r@.end_date.len() == 0,
    {
        Moment {
            id: String::new(),
            region: String::new(),
            start_date: String::new(),
            end_date: String::new(),
        }
    }
}

impl Moment {
    /// The field record of a value.
    pub open spec fn wire_encoding(v: MomentModel) -> Seq<FieldModel> {
        seq![
            ("id"@, ValueModel::Text(v.id)),
            ("region"@, ValueModel::Text(v.region)),
            ("startDate"@, ValueModel::Text(v.start_date)),
            ("endDate"@, ValueModel::Text(v.end_date)),
        ]
    }

    /// The value that a field record holds, or the failure of the first field
    /// that cannot be read.
    pub open spec fn wire_decoding(r: Seq<FieldModel>) -> Result<MomentModel, FaultModel> {
        let id = text_field(r, "id"@);
        let region = text_field(r, "region"@);
        let start_date = text_field(r, "startDate"@);
        let end_date = text_field(r, "endDate"@);
        if id is Err {
            Err(id->Err_0)
        } else if region is Err {
            Err(region->Err_0)
        } else if start_date is Err {
            Err(start_date->Err_0)
        } else if end_date is Err {
            Err(end_date->Err_0)
        } else {
            Ok(MomentModel {
                id: id->Ok_0,
                region: region->Ok_0,
                start_date: start_date->Ok_0,
                end_date: end_date->Ok_0,
            })
        }
    }

    /// Encodes this value as a field record.
    pub fn to_wire(&self) -> (r: Vec<WireField>)
        ensures
            record_model(r@) == Self::wire_encoding(self@),
    {
        let r = vec![
            WireField { key: "id".to_owned(), value: WireValue::Text(self.id.clone()) },
            WireField { key: "region".to_owned(), value: WireValue::Text(self.region.clone()) },
            WireField {
                key: "startDate".to_owned(),
                value: WireValue::Text(self.start_date.clone()),
            },
            WireField { key: "endDate".to_owned(), value: WireValue::Text(self.end_date.clone()) },
        ];
        assert(record_model(r@) =~= Self::wire_encoding(self@));
        r
    }

    /// Decodes a value from a field record.
    pub fn from_wire(rec: &Vec<WireField>) -> (r: Result<Moment, WireError>)
        ensures
            match Self::wire_decoding(record_model(rec@)) {
                Ok(v) => r matches Ok(x) && x@ == v,
                Err(f) => r matches Err(e) && e@ == f,
            },
    {
        let id = match read_text(rec, &"id".to_owned()) {
            Ok(x) => x,
            Err(e) => return Err(e),
        };
        let region = match read_text(rec, &"region".to_owned()) {
            Ok(x) => x,
            Err(e) => return Err(e),
        };
        let start_date = match read_text(rec, &"startDate".to_owned()) {
            Ok(x) => x,
            Err(e) => return Err(e),
        };
        let end_date = match read_text(rec, &"endDate".to_owned()) {
            Ok(x) => x,
            Err(e) => return Err(e),
        };
        Ok(Moment { id, region, start_date, end_date })
    }
}

/// Decoding the field record of a Moment gives back the same value.
pub proof fn moment_round_trip(v: Moment)
    ensures
        Moment::wire_decoding(Moment::wire_encoding(v@))
            == Ok::<MomentModel, FaultModel>(v@),
{
    let r = Moment::wire_encoding(v@);
    reveal_strlit("id");
    reveal_strlit("region");
    reveal_strlit("startDate");
    reveal_strlit("endDate");
    assert(distinct_keys(r)) by {
        assert("id"@.len() == 2);
        assert("region"@.len() == 6);
        assert("startDate"@.len() == 9);
        assert("endDate"@.len() == 7);
    }
    lemma_key_once(r, 0);
    lemma_key_once(r, 1);
    lemma_key_once(r, 2);
    lemma_key_once(r, 3);
}

/// The field names of a Moment on the wire are `id`, `region`, `startDate`, `endDate`, in that
/// order: the camelCase forms of the names of its fields.
pub proof fn moment_wire_names(v: Moment)
    ensures
        field_names(Moment::wire_encoding(v@)) == seq!["id"@, "region"@, "startDate"@, "endDate"@],
        field_names(Moment::wire_encoding(v@))
            == seq![
                camel_case("id"@),
                camel_case("region"@),
                camel_case("start_date"@),
                camel_case("end_date"@),
            ],
{
    reveal_strlit("id");
    reveal_strlit("region");
    reveal_strlit("start_date");
    reveal_strlit("startDate");
    reveal_strlit("end_date");
    reveal_strlit("endDate");
    reveal_with_fuel(camel_case, 11);
    assert(camel_case("id"@) =~= "id"@);
    assert(camel_case("region"@) =~= "region"@);
    assert(camel_case("start_date"@) =~= "startDate"@);
    assert(camel_case("end_date"@) =~= "endDate"@);
    assert(field_names(Moment::wire_encoding(v@))
        =~= seq!["id"@, "region"@, "startDate"@, "endDate"@]);
}

/// The request that converts a JPEG image to WebP.
#[derive(Debug)]
pub struct ConvertJpegToWebpArgs {
    pub jpeg: Vec<u8>,
}

/// The content of [`ConvertJpegToWebpArgs`].
pub ghost struct ConvertJpegToWebpArgsModel {
    pub jpeg: Seq<u8>,
}

impl View for ConvertJpegToWebpArgs {
    type V = ConvertJpegToWebpArgsModel;

    open spec fn view(&self) -> ConvertJpegToWebpArgsModel {
        ConvertJpegToWebpArgsModel {
            jpeg: self.jpeg@,
        }
    }
}

impl ConvertJpegToWebpArgs {
    /// The field record of a value.
    pub open spec fn wire_encoding(v: ConvertJpegToWebpArgsModel) -> Seq<FieldModel> {
        seq![
            ("jpeg"@, ValueModel::Bytes(v.jpeg)),
        ]
    }

    /// The value that a field record holds, or the failure of the first field
    /// that cannot be read.
    pub open spec fn wire_decoding(r: Seq<FieldModel>) -> Result<
        ConvertJpegToWebpArgsModel,
        FaultModel,
    > {
        let jpeg = bytes_field(r, "jpeg"@);
        if jpeg is Err {
            Err(jpeg->Err_0)
        } else {
            Ok(ConvertJpegToWebpArgsModel { jpeg: jpeg->Ok_0 })
        }
    }

    /// Encodes this value as a field record.
    pub fn to_wire(&self) -> (r: Vec<WireField>)
        ensures
            record_model(r@) == Self::wire_encoding(self@),
    {
        let r = vec![
            WireField { key: "jpeg".to_owned(), value: WireValue::Bytes(copy_bytes(&self.jpeg)) },
        ];
        assert(record_model(r@) =~= Self::wire_encoding(self@));
        r
    }

    /// Decodes a value from a field record.
    pub fn from_wire(rec: &Vec<WireField>) -> (r: Result<ConvertJpegToWebpArgs, WireError>)
        ensures
            match Self::wire_decoding(record_model(rec@)) {
                Ok(v) => r matches Ok(x) && x@ == v,
                Err(f) => r matches Err(e) && e@ == f,
            },
    {
        let jpeg = match read_bytes(rec, &"jpeg".to_owned()) {
            Ok(x) => x,
            Err(e) => return Err(e),
        };
        Ok(ConvertJpegToWebpArgs { jpeg })
    }
}

/// Decoding the field record of a ConvertJpegToWebpArgs gives back the same value.
pub proof fn convert_jpeg_to_webp_args_round_trip(v: ConvertJpegToWebpArgs)
    ensures
        ConvertJpegToWebpArgs::wire_decoding(ConvertJpegToWebpArgs::wire_encoding(v@))
            == Ok::<ConvertJpegToWebpArgsModel, FaultModel>(v@),
{
    let r = ConvertJpegToWebpArgs::wire_encoding(v@);
    reveal_strlit("jpeg");
    lemma_key_once(r, 0);
}

/// The field names of a ConvertJpegToWebpArgs on the wire are `jpeg`, in that order: the camelCase
/// forms of the names of its fields.
pub proof fn convert_jpeg_to_webp_args_wire_names(v: ConvertJpegToWebpArgs)
    ensures
        field_names(ConvertJpegToWebpArgs::wire_encoding(v@)) == seq!["jpeg"@],
        field_names(ConvertJpegToWebpArgs::wire_encoding(v@))
            == seq![camel_case("jpeg"@)],
{
    reveal_strlit("jpeg");
    reveal_with_fuel(camel_case, 5);
    assert(camel_case("jpeg"@) =~= "jpeg"@);
    assert(field_names(ConvertJpegToWebpArgs::wire_encoding(v@))
        =~= seq!["jpeg"@]);
}

/// The request that compresses a WebP image towards a size in bytes.
#[derive(Debug)]
pub struct CompressWebpToSizeArgs {
    pub webp: Vec<u8>,
    pub max_size: usize,
}

/// The content of [`CompressWebpToSizeArgs`].
pub ghost struct CompressWebpToSizeArgsModel {
    pub webp: Seq<u8>,
    pub max_size: nat,
}

impl View for CompressWebpToSizeArgs {
    type V = CompressWebpToSizeArgsModel;

    open spec fn view(&self) -> CompressWebpToSizeArgsModel {
        CompressWebpToSizeArgsModel {
            webp: self.webp@,
            max_size: self.max_size as nat,
        }
    }
}

impl CompressWebpToSizeArgs {
    /// The field record of a value.
    pub open spec fn wire_encoding(v: CompressWebpToSizeArgsModel) -> Seq<FieldModel> {
        seq![
            ("webp"@, ValueModel::Bytes(v.webp)),
            ("maxSize"@, ValueModel::Unsigned(v.max_size)),
        ]
    }

    /// The value that a field record holds, or the failure of the first field
    /// that cannot be read.
    pub open spec fn wire_decoding(r: Seq<FieldModel>) -> Result<
        CompressWebpToSizeArgsModel,
        FaultModel,
    > {
        let webp = bytes_field(r, "webp"@);
        let max_size = unsigned_field(r, "maxSize"@);
        if webp is Err {
            Err(webp->Err_0)
        } else if max_size is Err {
            Err(max_size->Err_0)
        } else {
            Ok(CompressWebpToSizeArgsModel { webp: webp->Ok_0, max_size: max_size->Ok_0 })
        }
    }

    /// Encodes this value as a field record.
    pub fn to_wire(&self) -> (r: Vec<WireField>)
        ensures
            record_model(r@) == Self::wire_encoding(self@),
    {
        let r = vec![
            WireField { key: "webp".to_owned(), value: WireValue::Bytes(copy_bytes(&self.webp)) },
            WireField { key: "maxSize".to_owned(), value: WireValue::Unsigned(self.max_size) },
        ];
        assert(record_model(r@) =~= Self::wire_encoding(self@));
        r
    }

    /// Decodes a value from a field record.
    pub fn from_wire(rec: &Vec<WireField>) -> (r: Result<CompressWebpToSizeArgs, WireError>)
        ensures
            match Self::wire_decoding(record_model(rec@)) {
                Ok(v) => r matches Ok(x) && x@ == v,
                Err(f) => r matches Err(e) && e@ == f,
            },
    {
        let webp = match read_bytes(rec, &"webp".to_owned()) {
            Ok(x) => x,
            Err(e) => return Err(e),
        };
        let max_size = match read_unsigned(rec, &"maxSize".to_owned()) {
            Ok(x) => x,
            Err(e) => return Err(e),
        };
        Ok(CompressWebpToSizeArgs { webp, max_size })
    }
}

/// Decoding the field record of a CompressWebpToSizeArgs gives back the same value.
pub proof fn compress_webp_to_size_args_round_trip(v: CompressWebpToSizeArgs)
    ensures
        CompressWebpToSizeArgs::wire_decoding(CompressWebpToSizeArgs::wire_encoding(v@))
            == Ok::<CompressWebpToSizeArgsModel, FaultModel>(v@),
{
    let r = CompressWebpToSizeArgs::wire_encoding(v@);
    reveal_strlit("webp");
    reveal_strlit("maxSize");
    assert(distinct_keys(r)) by {
        assert("webp"@.len() == 4);
        assert("maxSize"@.len() == 7);
    }
    lemma_key_once(r, 0);
    lemma_key_once(r, 1);
}

/// The field names of a CompressWebpToSizeArgs on the wire are `webp`, `maxSize`, in that order:
/// the camelCase forms of the names of its fields.
pub proof fn compress_webp_to_size_args_wire_names(v: CompressWebpToSizeArgs)
    ensures
        field_names(CompressWebpToSizeArgs::wire_encoding(v@)) == seq!["webp"@, "maxSize"@],
        field_names(CompressWebpToSizeArgs::wire_encoding(v@))
            == seq![camel_case("webp"@), camel_case("max_size"@)],
{
    reveal_strlit("webp");
    reveal_strlit("max_size");
    reveal_strlit("maxSize");
    reveal_with_fuel(camel_case, 9);
    assert(camel_case("webp"@) =~= "webp"@);
    assert(camel_case("max_size"@) =~= "maxSize"@);
    assert(field_names(CompressWebpToSizeArgs::wire_encoding(v@))
        =~= seq!["webp"@, "maxSize"@]);
}

/// Whether the application may show notifications: its status is meant to be one of `prompt`,
/// `denied` and `granted`.
#[derive(Debug)]
pub struct NotificationPermissionStatus {
    pub status: String,
}

/// The content of [`NotificationPermissionStatus`].
pub ghost struct NotificationPermissionStatusModel {
    pub status: Seq<char>,
}

impl View for NotificationPermissionStatus {
    type V = NotificationPermissionStatusModel;

    open spec fn view(&self) -> NotificationPermissionStatusModel {
        NotificationPermissionStatusModel {
            status: self.status@,
        }
    }
}

impl NotificationPermissionStatus {
    /// The field record of a value.
    pub open spec fn wire_encoding(v: NotificationPermissionStatusModel) -> Seq<FieldModel> {
        seq![
            ("status"@, ValueModel::Text(v.status)),
        ]
    }

    /// The value that a field record holds, or the failure of the first field
    /// that cannot be read.
    pub open spec fn wire_decoding(r: Seq<FieldModel>) -> Result<
        NotificationPermissionStatusModel,
        FaultModel,
    > {
        let status = text_field(r, "status"@);
        if status is Err {
            Err(status->Err_0)
        } else {
            Ok(NotificationPermissionStatusModel { status: status->Ok_0 })
        }
    }

    /// Encodes this value as a field record.
    pub fn to_wire(&self) -> (r: Vec<WireField>)
        ensures
            record_model(r@) == Self::wire_encoding(self@),
    {
        let r = vec![
            WireField { key: "status".to_owned(), value: WireValue::Text(self.status.clone()) },
        ];
        assert(record_model(r@) =~= Self::wire_encoding(self@));
        r
    }

    /// Decodes a value from a field record.
    pub fn from_wire(rec: &Vec<WireField>) -> (r: Result<NotificationPermissionStatus, WireError>)
        ensures
            match Self::wire_decoding(record_model(rec@)) {
                Ok(v) => r matches Ok(x) && x@ == v,
                Err(f) => r matches Err(e) && e@ == f,
            },
    {
        let status = match read_text(rec, &"status".to_owned()) {
            Ok(x) => x,
            Err(e) => return Err(e),
        };
        Ok(NotificationPermissionStatus { status })
    }
}

/// Decoding the field record of a NotificationPermissionStatus gives back the same value.
pub proof fn notification_permission_status_round_trip(v: NotificationPermissionStatus)
    ensures
        NotificationPermissionStatus::wire_decoding(NotificationPermissionStatus::wire_encoding(v@))
            == Ok::<NotificationPermissionStatusModel, FaultModel>(v@),
{
    let r = NotificationPermissionStatus::wire_encoding(v@);
    reveal_strlit("status");
    lemma_key_once(r, 0);
}

/// The field names of a NotificationPermissionStatus on the wire are `status`, in that order: the
/// camelCase forms of the names of its fields.
pub proof fn notification_permission_status_wire_names(v: NotificationPermissionStatus)
    ensures
        field_names(NotificationPermissionStatus::wire_encoding(v@)) == seq!["status"@],
        field_names(NotificationPermissionStatus::wire_encoding(v@))
            == seq![camel_case("status"@)],
{
    reveal_strlit("status");
    reveal_with_fuel(camel_case, 7);
    assert(camel_case("status"@) =~= "status"@);
    assert(field_names(NotificationPermissionStatus::wire_encoding(v@))
        =~= seq!["status"@]);
}


/// The states that a notification permission can be in.
#[derive(Clone, Copy, Debug, PartialEq, Eq, Structural)]
pub enum PermissionState {
    Prompt,
    Denied,
    Granted,
}

impl PermissionState {
    /// The status string of a state.
    pub open spec fn name(self) -> Seq<char> {
        match self {
            PermissionState::Prompt => "prompt"@,
            PermissionState::Denied => "denied"@,
            PermissionState::Granted => "granted"@,
        }
    }

    /// Returns the status string of this state.
    pub fn as_str(&self) -> (r: &'static str)
        ensures
            r@ == self.name(),
    {
        match self {
            PermissionState::Prompt => "prompt",
            PermissionState::Denied => "denied",
            PermissionState::Granted => "granted",
        }
    }
}

/// The state that a status string names, if it names one.
pub open spec fn state_named(s: Seq<char>) -> Option<PermissionState> {
    if s == "prompt"@ {
        Some(PermissionState::Prompt)
    } else if s == "denied"@ {
        Some(PermissionState::Denied)
    } else if s == "granted"@ {
        Some(PermissionState::Granted)
    } else {
        None
    }
}

impl NotificationPermissionStatus {
    /// Whether the status is one of `prompt`, `denied` and `granted`.
    pub open spec fn is_valid(&self) -> bool {
        state_named(self.status@) is Some
    }

    /// The status that carries the name of `state`.
    pub fn from_state(state: PermissionState) -> (r: NotificationPermissionStatus)
        ensures
            r.status@ == state.name(),
            r.is_valid(),
    {
        proof {
            permission_state_names(state);
        }
        NotificationPermissionStatus { status: state.as_str().to_owned() }
    }

    /// The state that the status names, or `None` where it names none of them.
    pub fn state(&self) -> (r: Option<PermissionState>)
        ensures
            r == state_named(self.status@),
    {
        if self.status == "prompt".to_owned() {
            Some(PermissionState::Prompt)
        } else if self.status == "denied".to_owned() {
            Some(PermissionState::Denied)
        } else if self.status == "granted".to_owned() {
            Some(PermissionState::Granted)
        } else {
            None
        }
    }
}

/// The three status strings are distinct, and each one names its own state:
/// a status built from a state is valid and reads back as that state.
pub proof fn permission_state_names(state: PermissionState)
    ensures
        state_named(state.name()) == Some(state),
{
    reveal_strlit("prompt");
    reveal_strlit("denied");
    reveal_strlit("granted");
    assert("prompt"@[0] == 'p' && "denied"@[0] == 'd' && "granted"@[0] == 'g');
}

/// A valid status carries exactly one of `prompt`, `denied` and `granted`:
/// the name of the state it reads as.
pub proof fn permission_status_closed(s: NotificationPermissionStatus)
    ensures
        s.is_valid() <==> (s.status@ == "prompt"@ || s.status@ == "denied"@ || s.status@
            == "granted"@),
        s.is_valid() ==> s.status@ == state_named(s.status@)->Some_0.name(),
{
}

} // verus!
