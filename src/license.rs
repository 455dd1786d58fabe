//! License kinds and their classification from free text.

use crate::converter::{empty_record, ConverterOutput, RecordView};
use crate::pattern::{contains_word, has_word, is_file_named, names_file};
use crate::repository::{Repository, RepositoryPlatform, RepositoryView};
use crate::text::{find_after_last, last_segment, lemma_after_last, opt_view, substring};
use vstd::prelude::*;

verus! {

/// The licenses that a project can declare, in the order in which
/// classification tries them.
#[derive(Debug, Clone, Copy, PartialEq, Eq, Structural, Hash)]
pub enum SupportedLicense {
    Unknown,
    Apache20,
    MIT,
    GNUGeneralPublicLicenseV30,
    BSD2Clause,
    BSD3Clause,
    GNULesserGeneralPublicLicenseV30,
    MozillaPublicLicense20,
    GNUAfferoGeneralPublicLicenseV30,
    GNUGeneralPublicLicenseV20,
    EclipsePublicLicense20,
    Unlicense,
    CreativeCommonsZeroV10Universal,
    GNUGeneralPublicLicenseV20OrLater,
    GNUAfferoGeneralPublicLicenseV10,
    GNULesserGeneralPublicLicenseV21,
    GNULesserGeneralPublicLicenseV20OrLater,
    ISC,
    MicrosoftPublicLicense,
    MicrosoftReciprocalLicense,
    GNUAfferoGeneralPublicLicenseV30OrLater,
    EuropeanUnionPublicLicense11,
    DoWhatTheFuckYouWantToPublicLicense,
    ZlibLicense,
    GNUAfferoGeneralPublicLicenseV20OrLaterWithAutoconfException,
    TheUnlicense,
    GNULesserGeneralPublicLicenseV21OrLater,
    GNULesserGeneralPublicLicenseV20,
    BoostSoftwareLicense10,
    GNUGeneralPublicLicenseV30Only,
    GNULesserGeneralPublicLicenseV30Only,
    BSD3ClauseClear,
    BSD4Clause,
    GNUGeneralPublicLicenseV30OrLaterWithAutoconfException,
    EuropeanUnionPublicLicense12,
    BSD3ClauseOriginal,
    SILOpenFontLicense11,
    GNUGeneralPublicLicenseV10,
    PostgreSQLLicense,
    ArtisticLicense20,
    ISCLicense,
    BSD2ClauseFreeBSD,
    BSD3ClauseNew,
    BSD3ClauseMultiUse,
    ApacheLicense20WithGCCException,
    GNUGeneralPublicLicenseV10OrLater,
    BSD3ClauseLBNL,
    BSD3ClauseClearNew,
    BSD3ClauseNoNuclearLicense,
    BSD3ClauseOpenSSL,
    BSD3ClauseAttribution,
    BSD4ClauseUC,
    GNUGeneralPublicLicenseV20OrLaterWithBisonException,
    GNULesserGeneralPublicLicenseV21OrLaterWithGCCException,
    ZlibLicenseOnly,
    BSD3ClauseLimited,
    BSD3ClauseRuby,
    BSD3ClauseUniversityOfIllinois,
    GNULesserGeneralPublicLicenseV21OrLaterWithClasspathException,
    BSD3ClauseUCBerkeley,
    MicrosoftPublicLicense20,
    ApacheLicense11,
    BSD3ClauseRevised,
    GNUGeneralPublicLicenseV20WithAutoconfException,
    ApacheLicense20WithLLVMException,
    BlueOakModelLicense100,
    CC010Universal,
    CreativeCommonsAttributionShareAlike40International,
}

/// Every variant, in declaration order.
pub open spec fn all_licenses() -> Seq<SupportedLicense> {
    seq![
        SupportedLicense::Unknown,
        SupportedLicense::Apache20,
        SupportedLicense::MIT,
        SupportedLicense::GNUGeneralPublicLicenseV30,
        SupportedLicense::BSD2Clause,
        SupportedLicense::BSD3Clause,
        SupportedLicense::GNULesserGeneralPublicLicenseV30,
        SupportedLicense::MozillaPublicLicense20,
        SupportedLicense::GNUAfferoGeneralPublicLicenseV30,
        SupportedLicense::GNUGeneralPublicLicenseV20,
        SupportedLicense::EclipsePublicLicense20,
        SupportedLicense::Unlicense,
        SupportedLicense::CreativeCommonsZeroV10Universal,
        SupportedLicense::GNUGeneralPublicLicenseV20OrLater,
        SupportedLicense::GNUAfferoGeneralPublicLicenseV10,
        SupportedLicense::GNULesserGeneralPublicLicenseV21,
        SupportedLicense::GNULesserGeneralPublicLicenseV20OrLater,
        SupportedLicense::ISC,
        SupportedLicense::MicrosoftPublicLicense,
        SupportedLicense::MicrosoftReciprocalLicense,
        SupportedLicense::GNUAfferoGeneralPublicLicenseV30OrLater,
        SupportedLicense::EuropeanUnionPublicLicense11,
        SupportedLicense::DoWhatTheFuckYouWantToPublicLicense,
        SupportedLicense::ZlibLicense,
        SupportedLicense::GNUAfferoGeneralPublicLicenseV20OrLaterWithAutoconfException,
        SupportedLicense::TheUnlicense,
        SupportedLicense::GNULesserGeneralPublicLicenseV21OrLater,
        SupportedLicense::GNULesserGeneralPublicLicenseV20,
        SupportedLicense::BoostSoftwareLicense10,
        SupportedLicense::GNUGeneralPublicLicenseV30Only,
        SupportedLicense::GNULesserGeneralPublicLicenseV30Only,
        SupportedLicense::BSD3ClauseClear,
        SupportedLicense::BSD4Clause,
        SupportedLicense::GNUGeneralPublicLicenseV30OrLaterWithAutoconfException,
        SupportedLicense::EuropeanUnionPublicLicense12,
        SupportedLicense::BSD3ClauseOriginal,
        SupportedLicense::SILOpenFontLicense11,
        SupportedLicense::GNUGeneralPublicLicenseV10,
        SupportedLicense::PostgreSQLLicense,
        SupportedLicense::ArtisticLicense20,
        SupportedLicense::ISCLicense,
        SupportedLicense::BSD2ClauseFreeBSD,
        SupportedLicense::BSD3ClauseNew,
        SupportedLicense::BSD3ClauseMultiUse,
        SupportedLicense::ApacheLicense20WithGCCException,
        SupportedLicense::GNUGeneralPublicLicenseV10OrLater,
        SupportedLicense::BSD3ClauseLBNL,
        SupportedLicense::BSD3ClauseClearNew,
        SupportedLicense::BSD3ClauseNoNuclearLicense,
        SupportedLicense::BSD3ClauseOpenSSL,
        SupportedLicense::BSD3ClauseAttribution,
        SupportedLicense::BSD4ClauseUC,
        SupportedLicense::GNUGeneralPublicLicenseV20OrLaterWithBisonException,
        SupportedLicense::GNULesserGeneralPublicLicenseV21OrLaterWithGCCException,
        SupportedLicense::ZlibLicenseOnly,
        SupportedLicense::BSD3ClauseLimited,
        SupportedLicense::BSD3ClauseRuby,
        SupportedLicense::BSD3ClauseUniversityOfIllinois,
        SupportedLicense::GNULesserGeneralPublicLicenseV21OrLaterWithClasspathException,
        SupportedLicense::BSD3ClauseUCBerkeley,
        SupportedLicense::MicrosoftPublicLicense20,
        SupportedLicense::ApacheLicense11,
        SupportedLicense::BSD3ClauseRevised,
        SupportedLicense::GNUGeneralPublicLicenseV20WithAutoconfException,
        SupportedLicense::ApacheLicense20WithLLVMException,
        SupportedLicense::BlueOakModelLicense100,
        SupportedLicense::CC010Universal,
        SupportedLicense::CreativeCommonsAttributionShareAlike40International,
    ]
}

impl SupportedLicense {
    /// The display name of the license.
    pub open spec fn spec_name(self) -> Seq<char> {
        match self {
            SupportedLicense::Unknown => "Unknown"@,
            SupportedLicense::Apache20 => "Apache-2.0"@,
            SupportedLicense::MIT => "MIT"@,
            SupportedLicense::GNUGeneralPublicLicenseV30 => "GNU General Public License v3.0"@,
            SupportedLicense::BSD2Clause => "BSD 2-Clause"@,
            SupportedLicense::BSD3Clause => "BSD 3-Clause"@,
            SupportedLicense::GNULesserGeneralPublicLicenseV30 => "GNU Lesser General Public License v3.0"@,
            SupportedLicense::MozillaPublicLicense20 => "Mozilla Public License 2.0"@,
            SupportedLicense::GNUAfferoGeneralPublicLicenseV30 => "GNU Affero General Public License v3.0"@,
            SupportedLicense::GNUGeneralPublicLicenseV20 => "GNU General Public License v2.0"@,
            SupportedLicense::EclipsePublicLicense20 => "Eclipse Public License 2.0"@,
            SupportedLicense::Unlicense => "Unlicense"@,
            SupportedLicense::CreativeCommonsZeroV10Universal => "Creative Commons Zero v1.0 Universal"@,
            SupportedLicense::GNUGeneralPublicLicenseV20OrLater => "GNU General Public License v2.0 or later"@,
            SupportedLicense::GNUAfferoGeneralPublicLicenseV10 => "GNU Affero General Public License v1.0"@,
            SupportedLicense::GNULesserGeneralPublicLicenseV21 => "GNU Lesser General Public License v2.1"@,
            SupportedLicense::GNULesserGeneralPublicLicenseV20OrLater => "GNU Lesser General Public License v2.0 or later"@,
            SupportedLicense::ISC => "ISC"@,
            SupportedLicense::MicrosoftPublicLicense => "Microsoft Public License"@,
            SupportedLicense::MicrosoftReciprocalLicense => "Microsoft Reciprocal License"@,
            SupportedLicense::GNUAfferoGeneralPublicLicenseV30OrLater => "GNU Affero General Public License v3.0 or later"@,
            SupportedLicense::EuropeanUnionPublicLicense11 => "European Union Public License 1.1"@,
            SupportedLicense::DoWhatTheFuckYouWantToPublicLicense => "Do What The Fuck You Want To Public License"@,
            SupportedLicense::ZlibLicense => "Zlib License"@,
            SupportedLicense::GNUAfferoGeneralPublicLicenseV20OrLaterWithAutoconfException => "GNU Affero General Public License v2.0 or later with Autoconf exception"@,
            SupportedLicense::TheUnlicense => "The Unlicense"@,
            SupportedLicense::GNULesserGeneralPublicLicenseV21OrLater => "GNU Lesser General Public License v2.1 or later"@,
            SupportedLicense::GNULesserGeneralPublicLicenseV20 => "GNU Lesser General Public License v2.0"@,
            SupportedLicense::BoostSoftwareLicense10 => "Boost Software License 1.0"@,
            SupportedLicense::GNUGeneralPublicLicenseV30Only => "GNU General Public License v3.0 only"@,
            SupportedLicense::GNULesserGeneralPublicLicenseV30Only => "GNU Lesser General Public License v3.0 only"@,
            SupportedLicense::BSD3ClauseClear => "BSD 3-Clause Clear"@,
            SupportedLicense::BSD4Clause => "BSD 4-Clause"@,
            SupportedLicense::GNUGeneralPublicLicenseV30OrLaterWithAutoconfException => "GNU General Public License v3.0 or later with Autoconf exception"@,
            SupportedLicense::EuropeanUnionPublicLicense12 => "European Union Public License 1.2"@,
            SupportedLicense::BSD3ClauseOriginal => "BSD 3-Clause Original"@,
            SupportedLicense::SILOpenFontLicense11 => "SIL Open Font License 1.1"@,
            SupportedLicense::GNUGeneralPublicLicenseV10 => "GNU General Public License v1.0"@,
            SupportedLicense::PostgreSQLLicense => "PostgreSQL License"@,
            SupportedLicense::ArtisticLicense20 => "Artistic License 2.0"@,
            SupportedLicense::ISCLicense => "ISC License"@,
            SupportedLicense::BSD2ClauseFreeBSD => "BSD 2-Clause FreeBSD"@,
            SupportedLicense::BSD3ClauseNew => "BSD 3-Clause New"@,
            SupportedLicense::BSD3ClauseMultiUse => "BSD 3-Clause Multi-Use"@,
            SupportedLicense::ApacheLicense20WithGCCException => "Apache License 2.0 with GCC Exception"@,
            SupportedLicense::GNUGeneralPublicLicenseV10OrLater => "GNU General Public License v1.0 or later"@,
            SupportedLicense::BSD3ClauseLBNL => "BSD 3-Clause LBNL"@,
            SupportedLicense::BSD3ClauseClearNew => "BSD 3-Clause Clear New"@,
            SupportedLicense::BSD3ClauseNoNuclearLicense => "BSD 3-Clause No Nuclear License"@,
            SupportedLicense::BSD3ClauseOpenSSL => "BSD 3-Clause OpenSSL"@,
            SupportedLicense::BSD3ClauseAttribution => "BSD 3-Clause Attribution"@,
            SupportedLicense::BSD4ClauseUC => "BSD 4-Clause UC"@,
            SupportedLicense::GNUGeneralPublicLicenseV20OrLaterWithBisonException => "GNU General Public License v2.0 or later with Bison exception"@,
            SupportedLicense::GNULesserGeneralPublicLicenseV21OrLaterWithGCCException => "GNU Lesser General Public License v2.1 or later with GCC exception"@,
            SupportedLicense::ZlibLicenseOnly => "Zlib License Only"@,
            SupportedLicense::BSD3ClauseLimited => "BSD 3-Clause Limited"@,
            SupportedLicense::BSD3ClauseRuby => "BSD 3-Clause Ruby"@,
            SupportedLicense::BSD3ClauseUniversityOfIllinois => "BSD 3-Clause University of Illinois"@,
            SupportedLicense::GNULesserGeneralPublicLicenseV21OrLaterWithClasspathException => "GNU Lesser General Public License v2.1 or later with Classpath exception"@,
            SupportedLicense::BSD3ClauseUCBerkeley => "BSD 3-Clause U.C. Berkeley"@,
            SupportedLicense::MicrosoftPublicLicense20 => "Microsoft Public License 2.0"@,
            SupportedLicense::ApacheLicense11 => "Apache License 1.1"@,
            SupportedLicense::BSD3ClauseRevised => "BSD 3-Clause Revised"@,
            SupportedLicense::GNUGeneralPublicLicenseV20WithAutoconfException => "GNU General Public License v2.0 with Autoconf exception"@,
            SupportedLicense::ApacheLicense20WithLLVMException => "Apache License 2.0 with LLVM Exception"@,
            SupportedLicense::BlueOakModelLicense100 => "BlueOak Model License 1.0.0"@,
            SupportedLicense::CC010Universal => "CC0 1.0 Universal"@,
            SupportedLicense::CreativeCommonsAttributionShareAlike40International => "Creative Commons Attribution Share Alike 4.0 International"@,
        }
    }

    /// Further spellings under which the license is recognised.
    pub open spec fn spec_aliases(self) -> Seq<Seq<char>> {
        match self {
            SupportedLicense::Unknown => seq![],
            SupportedLicense::Apache20 => seq!["apache2"@, "apache-2.0"@, "apache-2"@, "apache2.0"@],
            SupportedLicense::MIT => seq!["mit"@],
            SupportedLicense::GNUGeneralPublicLicenseV30 => seq!["gplv3"@, "gpl-3.0"@, "gpl-3"@, "gplv3.0"@],
            SupportedLicense::BSD2Clause => seq!["bsd2"@, "bsd-2.0"@, "bsd-2"@, "bsd2.0"@],
            SupportedLicense::BSD3Clause => seq!["bsd3"@, "bsd-3.0"@, "bsd-3"@, "bsd3.0"@],
            SupportedLicense::GNULesserGeneralPublicLicenseV30 => seq!["lgplv3"@, "lgpl-3.0"@, "lgpl-3"@, "lgplv3.0"@],
            SupportedLicense::MozillaPublicLicense20 => seq!["mplv2"@, "mpl-2.0"@, "mpl-2"@, "mplv2.0"@],
            SupportedLicense::GNUAfferoGeneralPublicLicenseV30 => seq!["agplv3"@, "agpl-3.0"@, "agpl-3"@, "agplv3.0"@],
            SupportedLicense::GNUGeneralPublicLicenseV20 => seq!["gplv2"@, "gpl-2.0"@, "gpl-2"@, "gplv2.0"@],
            SupportedLicense::EclipsePublicLicense20 => seq!["eplv2"@, "epl-2.0"@, "epl-2"@, "eplv2.0"@],
            SupportedLicense::Unlicense => seq!["unlicense"@],
            SupportedLicense::CreativeCommonsZeroV10Universal => seq!["cc0"@],
            SupportedLicense::GNUGeneralPublicLicenseV20OrLater => seq!["gplv2+"@, "gpl-2.0+"@, "gpl-2+"@, "gplv2.0+"@],
            SupportedLicense::GNUAfferoGeneralPublicLicenseV10 => seq!["agplv1"@, "agpl-1.0"@, "agplv1.0"@],
            SupportedLicense::GNULesserGeneralPublicLicenseV21 => seq!["GNU General Public License v1.0"@, "lgplv2"@, "lgpl-2.0"@, "lgpl-2"@, "lgplv2.0"@],
            SupportedLicense::GNULesserGeneralPublicLicenseV20OrLater => seq!["GNU General Public License v2.0 or later"@, "lgplv2+"@, "lgpl-2.0+"@, "lgpl-2+"@, "lgplv2.0+"@],
            SupportedLicense::ISC => seq!["isc"@],
            SupportedLicense::MicrosoftPublicLicense => seq!["mspl"@, "ms-pl"@],
            SupportedLicense::MicrosoftReciprocalLicense => seq!["msrl"@, "ms-rl"@],
            SupportedLicense::GNUAfferoGeneralPublicLicenseV30OrLater => seq!["agplv3+"@, "agpl-3.0+"@, "agpl-3+"@, "agplv3.0+"@],
            SupportedLicense::EuropeanUnionPublicLicense11 => seq!["euplv1.1"@, "eupl-1.1"@],
            SupportedLicense::DoWhatTheFuckYouWantToPublicLicense => seq!["wtfpl"@],
            SupportedLicense::ZlibLicense => seq!["zlib"@],
            SupportedLicense::GNUAfferoGeneralPublicLicenseV20OrLaterWithAutoconfException => seq![],
            SupportedLicense::TheUnlicense => seq!["unlicense"@],
            SupportedLicense::GNULesserGeneralPublicLicenseV21OrLater => seq!["lgplv2.1"@, "lgpl-2.1"@],
            SupportedLicense::GNULesserGeneralPublicLicenseV20 => seq!["lgplv2.0"@, "lgpl-2.0"@],
            SupportedLicense::BoostSoftwareLicense10 => seq!["bsl"@, "boost"@],
            SupportedLicense::GNUGeneralPublicLicenseV30Only => seq!["gplv3only"@, "gpl-3.0-only"@, "gpl-3-only"@, "gplv3.0-only"@],
            SupportedLicense::GNULesserGeneralPublicLicenseV30Only => seq!["lgplv3only"@, "lgpl-3.0-only"@, "lgpl-3-only"@, "lgplv3.0-only"@],
            SupportedLicense::BSD3ClauseClear => seq!["bsd3clear"@, "bsd-3-clear"@, "bsd-3-clear-new"@, "bsd3-clear"@, "bsd3-clear-new"@],
            SupportedLicense::BSD4Clause => seq!["bsd4"@, "bsd-4.0"@, "bsd-4"@, "bsd4.0"@],
            SupportedLicense::GNUGeneralPublicLicenseV30OrLaterWithAutoconfException => seq!["gplv3+autoconf"@, "gpl-3.0+autoconf"@, "gpl-3+autoconf"@, "gplv3.0+autoconf"@],
            SupportedLicense::EuropeanUnionPublicLicense12 => seq!["euplv1.2"@, "eupl-1.2"@],
            SupportedLicense::BSD3ClauseOriginal => seq!["bsd3original"@, "bsd-3-original"@, "bsd3-original"@],
            SupportedLicense::SILOpenFontLicense11 => seq!["silofl"@, "ofl"@, "sil-open-font-license"@],
            SupportedLicense::GNUGeneralPublicLicenseV10 => seq!["gplv1"@, "gpl-1.0"@, "gpl-1"@, "gplv1.0"@],
            SupportedLicense::PostgreSQLLicense => seq!["postgresql"@, "postgresql-license"@],
            SupportedLicense::ArtisticLicense20 => seq!["artisticv2"@, "artistic-2.0"@, "artistic-2"@, "artisticv2.0"@],
            SupportedLicense::ISCLicense => seq!["isc"@],
            SupportedLicense::BSD2ClauseFreeBSD => seq!["bsd2freebsd"@, "bsd-2-freebsd"@, "bsd2-freebsd"@],
            SupportedLicense::BSD3ClauseNew => seq!["bsd3new"@, "bsd-3-new"@, "bsd3-new"@],
            SupportedLicense::BSD3ClauseMultiUse => seq!["bsd3multiuse"@, "bsd-3-multi-use"@, "bsd3-multi-use"@],
            SupportedLicense::ApacheLicense20WithGCCException => seq!["apache2+gcc"@, "apache-2.0+gcc"@, "apache-2+gcc"@, "apache2.0+gcc"@],
            SupportedLicense::GNUGeneralPublicLicenseV10OrLater => seq!["gplv1+"@, "gpl-1.0+"@, "gpl-1+"@, "gplv1.0+"@],
            SupportedLicense::BSD3ClauseLBNL => seq!["bsd3lbnl"@, "bsd-3-lbnl"@, "bsd3-lbnl"@],
            SupportedLicense::BSD3ClauseClearNew => seq!["bsd3clearnew"@, "bsd-3-clear-new"@, "bsd3-clear-new"@],
            SupportedLicense::BSD3ClauseNoNuclearLicense => seq!["bsd3nonuclear"@, "bsd-3-no-nuclear"@, "bsd3-no-nuclear"@],
            SupportedLicense::BSD3ClauseOpenSSL => seq!["bsd3openssl"@, "bsd-3-openssl"@, "bsd3-openssl"@],
            SupportedLicense::BSD3ClauseAttribution => seq!["bsd3attribution"@, "bsd-3-attribution"@, "bsd3-attribution"@],
            SupportedLicense::BSD4ClauseUC => seq!["bsd4uc"@, "bsd-4-uc"@, "bsd4-uc"@],
            SupportedLicense::GNUGeneralPublicLicenseV20OrLaterWithBisonException => seq!["gplv2+bison"@, "gpl-2.0+bison"@, "gpl-2+bison"@, "gplv2.0+bison"@],
            SupportedLicense::GNULesserGeneralPublicLicenseV21OrLaterWithGCCException => seq!["lgplv2.1+gcc"@, "lgpl-2.1+gcc"@],
            SupportedLicense::ZlibLicenseOnly => seq!["zlibonly"@, "zlib-only"@],
            SupportedLicense::BSD3ClauseLimited => seq!["bsd3limited"@, "bsd-3-limited"@, "bsd3-limited"@],
            SupportedLicense::BSD3ClauseRuby => seq!["bsd3ruby"@, "bsd-3-ruby"@, "bsd3-ruby"@],
            SupportedLicense::BSD3ClauseUniversityOfIllinois => seq!["bsd3uiuc"@, "bsd-3-uiuc"@, "bsd3-uiuc"@],
            SupportedLicense::GNULesserGeneralPublicLicenseV21OrLaterWithClasspathException => seq!["lgplv2.1+classpath"@, "lgpl-2.1+classpath"@],
            SupportedLicense::BSD3ClauseUCBerkeley => seq!["bsd3ucb"@, "bsd-3-ucb"@, "bsd3-ucb"@],
            SupportedLicense::MicrosoftPublicLicense20 => seq!["msplv2"@, "ms-pl-2.0"@, "ms-pl-2"@, "msplv2.0"@],
            SupportedLicense::ApacheLicense11 => seq!["apache1"@, "apache-1.0"@, "apache1.0"@],
            SupportedLicense::BSD3ClauseRevised => seq!["bsd3revised"@, "bsd-3-revised"@, "bsd3-revised"@],
            SupportedLicense::GNUGeneralPublicLicenseV20WithAutoconfException => seq!["gplv2+autoconf"@, "gpl-2.0+autoconf"@, "gpl-2+autoconf"@, "gplv2.0+autoconf"@],
            SupportedLicense::ApacheLicense20WithLLVMException => seq!["apache2+llvm"@, "apache-2.0+llvm"@, "apache-2+llvm"@, "apache2.0+llvm"@],
            SupportedLicense::BlueOakModelLicense100 => seq!["blueoak"@],
            SupportedLicense::CC010Universal => seq!["cc0-1.0"@, "cc0v1.0"@, "cc0v1"@],
            SupportedLicense::CreativeCommonsAttributionShareAlike40International => seq!["cc-by-4.0"@, "Attribution ShareAlike 4.0"@, "ShareAlike 4.0"@, "ccby4.0"@, "ccby4"@, "ccby"@],
        }
    }

    pub fn name(&self) -> (r: &'static str)
        ensures
            r@ == self.spec_name(),
    {
        match self {
            SupportedLicense::Unknown => "Unknown",
            SupportedLicense::Apache20 => "Apache-2.0",
            SupportedLicense::MIT => "MIT",
            SupportedLicense::GNUGeneralPublicLicenseV30 => "GNU General Public License v3.0",
            SupportedLicense::BSD2Clause => "BSD 2-Clause",
            SupportedLicense::BSD3Clause => "BSD 3-Clause",
            SupportedLicense::GNULesserGeneralPublicLicenseV30 => "GNU Lesser General Public License v3.0",
            SupportedLicense::MozillaPublicLicense20 => "Mozilla Public License 2.0",
            SupportedLicense::GNUAfferoGeneralPublicLicenseV30 => "GNU Affero General Public License v3.0",
            SupportedLicense::GNUGeneralPublicLicenseV20 => "GNU General Public License v2.0",
            SupportedLicense::EclipsePublicLicense20 => "Eclipse Public License 2.0",
            SupportedLicense::Unlicense => "Unlicense",
            SupportedLicense::CreativeCommonsZeroV10Universal => "Creative Commons Zero v1.0 Universal",
            SupportedLicense::GNUGeneralPublicLicenseV20OrLater => "GNU General Public License v2.0 or later",
            SupportedLicense::GNUAfferoGeneralPublicLicenseV10 => "GNU Affero General Public License v1.0",
            SupportedLicense::GNULesserGeneralPublicLicenseV21 => "GNU Lesser General Public License v2.1",
            SupportedLicense::GNULesserGeneralPublicLicenseV20OrLater => "GNU Lesser General Public License v2.0 or later",
            SupportedLicense::ISC => "ISC",
            SupportedLicense::MicrosoftPublicLicense => "Microsoft Public License",
            SupportedLicense::MicrosoftReciprocalLicense => "Microsoft Reciprocal License",
            SupportedLicense::GNUAfferoGeneralPublicLicenseV30OrLater => "GNU Affero General Public License v3.0 or later",
            SupportedLicense::EuropeanUnionPublicLicense11 => "European Union Public License 1.1",
            SupportedLicense::DoWhatTheFuckYouWantToPublicLicense => "Do What The Fuck You Want To Public License",
            SupportedLicense::ZlibLicense => "Zlib License",
            SupportedLicense::GNUAfferoGeneralPublicLicenseV20OrLaterWithAutoconfException => "GNU Affero General Public License v2.0 or later with Autoconf exception",
            SupportedLicense::TheUnlicense => "The Unlicense",
            SupportedLicense::GNULesserGeneralPublicLicenseV21OrLater => "GNU Lesser General Public License v2.1 or later",
            SupportedLicense::GNULesserGeneralPublicLicenseV20 => "GNU Lesser General Public License v2.0",
            SupportedLicense::BoostSoftwareLicense10 => "Boost Software License 1.0",
            SupportedLicense::GNUGeneralPublicLicenseV30Only => "GNU General Public License v3.0 only",
            SupportedLicense::GNULesserGeneralPublicLicenseV30Only => "GNU Lesser General Public License v3.0 only",
            SupportedLicense::BSD3ClauseClear => "BSD 3-Clause Clear",
            SupportedLicense::BSD4Clause => "BSD 4-Clause",
            SupportedLicense::GNUGeneralPublicLicenseV30OrLaterWithAutoconfException => "GNU General Public License v3.0 or later with Autoconf exception",
            SupportedLicense::EuropeanUnionPublicLicense12 => "European Union Public License 1.2",
            SupportedLicense::BSD3ClauseOriginal => "BSD 3-Clause Original",
            SupportedLicense::SILOpenFontLicense11 => "SIL Open Font License 1.1",
            SupportedLicense::GNUGeneralPublicLicenseV10 => "GNU General Public License v1.0",
            SupportedLicense::PostgreSQLLicense => "PostgreSQL License",
            SupportedLicense::ArtisticLicense20 => "Artistic License 2.0",
            SupportedLicense::ISCLicense => "ISC License",
            SupportedLicense::BSD2ClauseFreeBSD => "BSD 2-Clause FreeBSD",
            SupportedLicense::BSD3ClauseNew => "BSD 3-Clause New",
            SupportedLicense::BSD3ClauseMultiUse => "BSD 3-Clause Multi-Use",
            SupportedLicense::ApacheLicense20WithGCCException => "Apache License 2.0 with GCC Exception",
            SupportedLicense::GNUGeneralPublicLicenseV10OrLater => "GNU General Public License v1.0 or later",
            SupportedLicense::BSD3ClauseLBNL => "BSD 3-Clause LBNL",
            SupportedLicense::BSD3ClauseClearNew => "BSD 3-Clause Clear New",
            SupportedLicense::BSD3ClauseNoNuclearLicense => "BSD 3-Clause No Nuclear License",
            SupportedLicense::BSD3ClauseOpenSSL => "BSD 3-Clause OpenSSL",
            SupportedLicense::BSD3ClauseAttribution => "BSD 3-Clause Attribution",
            SupportedLicense::BSD4ClauseUC => "BSD 4-Clause UC",
            SupportedLicense::GNUGeneralPublicLicenseV20OrLaterWithBisonException => "GNU General Public License v2.0 or later with Bison exception",
            SupportedLicense::GNULesserGeneralPublicLicenseV21OrLaterWithGCCException => "GNU Lesser General Public License v2.1 or later with GCC exception",
            SupportedLicense::ZlibLicenseOnly => "Zlib License Only",
            SupportedLicense::BSD3ClauseLimited => "BSD 3-Clause Limited",
            SupportedLicense::BSD3ClauseRuby => "BSD 3-Clause Ruby",
            SupportedLicense::BSD3ClauseUniversityOfIllinois => "BSD 3-Clause University of Illinois",
            SupportedLicense::GNULesserGeneralPublicLicenseV21OrLaterWithClasspathException => "GNU Lesser General Public License v2.1 or later with Classpath exception",
            SupportedLicense::BSD3ClauseUCBerkeley => "BSD 3-Clause U.C. Berkeley",
            SupportedLicense::MicrosoftPublicLicense20 => "Microsoft Public License 2.0",
            SupportedLicense::ApacheLicense11 => "Apache License 1.1",
            SupportedLicense::BSD3ClauseRevised => "BSD 3-Clause Revised",
            SupportedLicense::GNUGeneralPublicLicenseV20WithAutoconfException => "GNU General Public License v2.0 with Autoconf exception",
            SupportedLicense::ApacheLicense20WithLLVMException => "Apache License 2.0 with LLVM Exception",
            SupportedLicense::BlueOakModelLicense100 => "BlueOak Model License 1.0.0",
            SupportedLicense::CC010Universal => "CC0 1.0 Universal",
            SupportedLicense::CreativeCommonsAttributionShareAlike40International => "Creative Commons Attribution Share Alike 4.0 International",
        }
    }

    pub fn aliases(&self) -> (r: Vec<&'static str>)
        ensures
            r@.len() == self.spec_aliases().len(),
            forall|i: int| 0 <= i < r@.len() ==> (#[trigger] r@[i])@ == self.spec_aliases()[i],
    {
        match self {
            SupportedLicense::Unknown => vec![],
            SupportedLicense::Apache20 => vec!["apache2", "apache-2.0", "apache-2", "apache2.0"],
            SupportedLicense::MIT => vec!["mit"],
            SupportedLicense::GNUGeneralPublicLicenseV30 => vec!["gplv3", "gpl-3.0", "gpl-3", "gplv3.0"],
            SupportedLicense::BSD2Clause => vec!["bsd2", "bsd-2.0", "bsd-2", "bsd2.0"],
            SupportedLicense::BSD3Clause => vec!["bsd3", "bsd-3.0", "bsd-3", "bsd3.0"],
            SupportedLicense::GNULesserGeneralPublicLicenseV30 => vec!["lgplv3", "lgpl-3.0", "lgpl-3", "lgplv3.0"],
            SupportedLicense::MozillaPublicLicense20 => vec!["mplv2", "mpl-2.0", "mpl-2", "mplv2.0"],
            SupportedLicense::GNUAfferoGeneralPublicLicenseV30 => vec!["agplv3", "agpl-3.0", "agpl-3", "agplv3.0"],
            SupportedLicense::GNUGeneralPublicLicenseV20 => vec!["gplv2", "gpl-2.0", "gpl-2", "gplv2.0"],
            SupportedLicense::EclipsePublicLicense20 => vec!["eplv2", "epl-2.0", "epl-2", "eplv2.0"],
            SupportedLicense::Unlicense => vec!["unlicense"],
            SupportedLicense::CreativeCommonsZeroV10Universal => vec!["cc0"],
            SupportedLicense::GNUGeneralPublicLicenseV20OrLater => vec!["gplv2+", "gpl-2.0+", "gpl-2+", "gplv2.0+"],
            SupportedLicense::GNUAfferoGeneralPublicLicenseV10 => vec!["agplv1", "agpl-1.0", "agplv1.0"],
            SupportedLicense::GNULesserGeneralPublicLicenseV21 => vec!["GNU General Public License v1.0", "lgplv2", "lgpl-2.0", "lgpl-2", "lgplv2.0"],
            SupportedLicense::GNULesserGeneralPublicLicenseV20OrLater => vec!["GNU General Public License v2.0 or later", "lgplv2+", "lgpl-2.0+", "lgpl-2+", "lgplv2.0+"],
            SupportedLicense::ISC => vec!["isc"],
            SupportedLicense::MicrosoftPublicLicense => vec!["mspl", "ms-pl"],
            SupportedLicense::MicrosoftReciprocalLicense => vec!["msrl", "ms-rl"],
            SupportedLicense::GNUAfferoGeneralPublicLicenseV30OrLater => vec!["agplv3+", "agpl-3.0+", "agpl-3+", "agplv3.0+"],
            SupportedLicense::EuropeanUnionPublicLicense11 => vec!["euplv1.1", "eupl-1.1"],
            SupportedLicense::DoWhatTheFuckYouWantToPublicLicense => vec!["wtfpl"],
            SupportedLicense::ZlibLicense => vec!["zlib"],
            SupportedLicense::GNUAfferoGeneralPublicLicenseV20OrLaterWithAutoconfException => vec![],
            SupportedLicense::TheUnlicense => vec!["unlicense"],
            SupportedLicense::GNULesserGeneralPublicLicenseV21OrLater => vec!["lgplv2.1", "lgpl-2.1"],
            SupportedLicense::GNULesserGeneralPublicLicenseV20 => vec!["lgplv2.0", "lgpl-2.0"],
            SupportedLicense::BoostSoftwareLicense10 => vec!["bsl", "boost"],
            SupportedLicense::GNUGeneralPublicLicenseV30Only => vec!["gplv3only", "gpl-3.0-only", "gpl-3-only", "gplv3.0-only"],
            SupportedLicense::GNULesserGeneralPublicLicenseV30Only => vec!["lgplv3only", "lgpl-3.0-only", "lgpl-3-only", "lgplv3.0-only"],
            SupportedLicense::BSD3ClauseClear => vec!["bsd3clear", "bsd-3-clear", "bsd-3-clear-new", "bsd3-clear", "bsd3-clear-new"],
            SupportedLicense::BSD4Clause => vec!["bsd4", "bsd-4.0", "bsd-4", "bsd4.0"],
            SupportedLicense::GNUGeneralPublicLicenseV30OrLaterWithAutoconfException => vec!["gplv3+autoconf", "gpl-3.0+autoconf", "gpl-3+autoconf", "gplv3.0+autoconf"],
            SupportedLicense::EuropeanUnionPublicLicense12 => vec!["euplv1.2", "eupl-1.2"],
            SupportedLicense::BSD3ClauseOriginal => vec!["bsd3original", "bsd-3-original", "bsd3-original"],
            SupportedLicense::SILOpenFontLicense11 => vec!["silofl", "ofl", "sil-open-font-license"],
            SupportedLicense::GNUGeneralPublicLicenseV10 => vec!["gplv1", "gpl-1.0", "gpl-1", "gplv1.0"],
            SupportedLicense::PostgreSQLLicense => vec!["postgresql", "postgresql-license"],
            SupportedLicense::ArtisticLicense20 => vec!["artisticv2", "artistic-2.0", "artistic-2", "artisticv2.0"],
            SupportedLicense::ISCLicense => vec!["isc"],
            SupportedLicense::BSD2ClauseFreeBSD => vec!["bsd2freebsd", "bsd-2-freebsd", "bsd2-freebsd"],
            SupportedLicense::BSD3ClauseNew => vec!["bsd3new", "bsd-3-new", "bsd3-new"],
            SupportedLicense::BSD3ClauseMultiUse => vec!["bsd3multiuse", "bsd-3-multi-use", "bsd3-multi-use"],
            SupportedLicense::ApacheLicense20WithGCCException => vec!["apache2+gcc", "apache-2.0+gcc", "apache-2+gcc", "apache2.0+gcc"],
            SupportedLicense::GNUGeneralPublicLicenseV10OrLater => vec!["gplv1+", "gpl-1.0+", "gpl-1+", "gplv1.0+"],
            SupportedLicense::BSD3ClauseLBNL => vec!["bsd3lbnl", "bsd-3-lbnl", "bsd3-lbnl"],
            SupportedLicense::BSD3ClauseClearNew => vec!["bsd3clearnew", "bsd-3-clear-new", "bsd3-clear-new"],
            SupportedLicense::BSD3ClauseNoNuclearLicense => vec!["bsd3nonuclear", "bsd-3-no-nuclear", "bsd3-no-nuclear"],
            SupportedLicense::BSD3ClauseOpenSSL => vec!["bsd3openssl", "bsd-3-openssl", "bsd3-openssl"],
            SupportedLicense::BSD3ClauseAttribution => vec!["bsd3attribution", "bsd-3-attribution", "bsd3-attribution"],
            SupportedLicense::BSD4ClauseUC => vec!["bsd4uc", "bsd-4-uc", "bsd4-uc"],
            SupportedLicense::GNUGeneralPublicLicenseV20OrLaterWithBisonException => vec!["gplv2+bison", "gpl-2.0+bison", "gpl-2+bison", "gplv2.0+bison"],
            SupportedLicense::GNULesserGeneralPublicLicenseV21OrLaterWithGCCException => vec!["lgplv2.1+gcc", "lgpl-2.1+gcc"],
            SupportedLicense::ZlibLicenseOnly => vec!["zlibonly", "zlib-only"],
            SupportedLicense::BSD3ClauseLimited => vec!["bsd3limited", "bsd-3-limited", "bsd3-limited"],
            SupportedLicense::BSD3ClauseRuby => vec!["bsd3ruby", "bsd-3-ruby", "bsd3-ruby"],
            SupportedLicense::BSD3ClauseUniversityOfIllinois => vec!["bsd3uiuc", "bsd-3-uiuc", "bsd3-uiuc"],
            SupportedLicense::GNULesserGeneralPublicLicenseV21OrLaterWithClasspathException => vec!["lgplv2.1+classpath", "lgpl-2.1+classpath"],
            SupportedLicense::BSD3ClauseUCBerkeley => vec!["bsd3ucb", "bsd-3-ucb", "bsd3-ucb"],
            SupportedLicense::MicrosoftPublicLicense20 => vec!["msplv2", "ms-pl-2.0", "ms-pl-2", "msplv2.0"],
            SupportedLicense::ApacheLicense11 => vec!["apache1", "apache-1.0", "apache1.0"],
            SupportedLicense::BSD3ClauseRevised => vec!["bsd3revised", "bsd-3-revised", "bsd3-revised"],
            SupportedLicense::GNUGeneralPublicLicenseV20WithAutoconfException => vec!["gplv2+autoconf", "gpl-2.0+autoconf", "gpl-2+autoconf", "gplv2.0+autoconf"],
            SupportedLicense::ApacheLicense20WithLLVMException => vec!["apache2+llvm", "apache-2.0+llvm", "apache-2+llvm", "apache2.0+llvm"],
            SupportedLicense::BlueOakModelLicense100 => vec!["blueoak"],
            SupportedLicense::CC010Universal => vec!["cc0-1.0", "cc0v1.0", "cc0v1"],
            SupportedLicense::CreativeCommonsAttributionShareAlike40International => vec!["cc-by-4.0", "Attribution ShareAlike 4.0", "ShareAlike 4.0", "ccby4.0", "ccby4", "ccby"],
        }
    }

    /// Every variant, in declaration order.
    pub fn all() -> (r: Vec<SupportedLicense>)
        ensures
            r@ == all_licenses(),
    {
        let r = vec![
            SupportedLicense::Unknown,
            SupportedLicense::Apache20,
            SupportedLicense::MIT,
            SupportedLicense::GNUGeneralPublicLicenseV30,
            SupportedLicense::BSD2Clause,
            SupportedLicense::BSD3Clause,
            SupportedLicense::GNULesserGeneralPublicLicenseV30,
            SupportedLicense::MozillaPublicLicense20,
            SupportedLicense::GNUAfferoGeneralPublicLicenseV30,
            SupportedLicense::GNUGeneralPublicLicenseV20,
            SupportedLicense::EclipsePublicLicense20,
            SupportedLicense::Unlicense,
            SupportedLicense::CreativeCommonsZeroV10Universal,
            SupportedLicense::GNUGeneralPublicLicenseV20OrLater,
            SupportedLicense::GNUAfferoGeneralPublicLicenseV10,
            SupportedLicense::GNULesserGeneralPublicLicenseV21,
            SupportedLicense::GNULesserGeneralPublicLicenseV20OrLater,
            SupportedLicense::ISC,
            SupportedLicense::MicrosoftPublicLicense,
            SupportedLicense::MicrosoftReciprocalLicense,
            SupportedLicense::GNUAfferoGeneralPublicLicenseV30OrLater,
            SupportedLicense::EuropeanUnionPublicLicense11,
            SupportedLicense::DoWhatTheFuckYouWantToPublicLicense,
            SupportedLicense::ZlibLicense,
            SupportedLicense::GNUAfferoGeneralPublicLicenseV20OrLaterWithAutoconfException,
            SupportedLicense::TheUnlicense,
            SupportedLicense::GNULesserGeneralPublicLicenseV21OrLater,
            SupportedLicense::GNULesserGeneralPublicLicenseV20,
            SupportedLicense::BoostSoftwareLicense10,
            SupportedLicense::GNUGeneralPublicLicenseV30Only,
            SupportedLicense::GNULesserGeneralPublicLicenseV30Only,
            SupportedLicense::BSD3ClauseClear,
            SupportedLicense::BSD4Clause,
            SupportedLicense::GNUGeneralPublicLicenseV30OrLaterWithAutoconfException,
            SupportedLicense::EuropeanUnionPublicLicense12,
            SupportedLicense::BSD3ClauseOriginal,
            SupportedLicense::SILOpenFontLicense11,
            SupportedLicense::GNUGeneralPublicLicenseV10,
            SupportedLicense::PostgreSQLLicense,
            SupportedLicense::ArtisticLicense20,
            SupportedLicense::ISCLicense,
            SupportedLicense::BSD2ClauseFreeBSD,
            SupportedLicense::BSD3ClauseNew,
            SupportedLicense::BSD3ClauseMultiUse,
            SupportedLicense::ApacheLicense20WithGCCException,
            SupportedLicense::GNUGeneralPublicLicenseV10OrLater,
            SupportedLicense::BSD3ClauseLBNL,
            SupportedLicense::BSD3ClauseClearNew,
            SupportedLicense::BSD3ClauseNoNuclearLicense,
            SupportedLicense::BSD3ClauseOpenSSL,
            SupportedLicense::BSD3ClauseAttribution,
            SupportedLicense::BSD4ClauseUC,
            SupportedLicense::GNUGeneralPublicLicenseV20OrLaterWithBisonException,
            SupportedLicense::GNULesserGeneralPublicLicenseV21OrLaterWithGCCException,
            SupportedLicense::ZlibLicenseOnly,
            SupportedLicense::BSD3ClauseLimited,
            SupportedLicense::BSD3ClauseRuby,
            SupportedLicense::BSD3ClauseUniversityOfIllinois,
            SupportedLicense::GNULesserGeneralPublicLicenseV21OrLaterWithClasspathException,
            SupportedLicense::BSD3ClauseUCBerkeley,
            SupportedLicense::MicrosoftPublicLicense20,
            SupportedLicense::ApacheLicense11,
            SupportedLicense::BSD3ClauseRevised,
            SupportedLicense::GNUGeneralPublicLicenseV20WithAutoconfException,
            SupportedLicense::ApacheLicense20WithLLVMException,
            SupportedLicense::BlueOakModelLicense100,
            SupportedLicense::CC010Universal,
            SupportedLicense::CreativeCommonsAttributionShareAlike40International,
        ];
        assert(r@ =~= all_licenses());
        r
    }
}

/// Whether `text` names license `l`: its display name or one of its aliases
/// occurs in `text` as a whole word, ignoring case.
pub open spec fn names_license(l: SupportedLicense, text: Seq<char>) -> bool {
    has_word(l.spec_name(), text) || exists|i: int|
        0 <= i < l.spec_aliases().len() && has_word(#[trigger] l.spec_aliases()[i], text)
}

/// The first license of `ls` that `text` names, or `Unknown`.
pub open spec fn first_named(ls: Seq<SupportedLicense>, text: Seq<char>) -> SupportedLicense
    decreases ls.len(),
{
    if ls.len() == 0 {
        SupportedLicense::Unknown
    } else if names_license(ls[0], text) {
        ls[0]
    } else {
        first_named(ls.drop_first(), text)
    }
}

/// The license that `text` names: the first in declaration order after `Unknown`.
pub open spec fn classify(text: Seq<char>) -> SupportedLicense {
    first_named(all_licenses().drop_first(), text)
}

proof fn lemma_first_named(ls: Seq<SupportedLicense>, text: Seq<char>, i: int)
    requires
        0 <= i <= ls.len(),
        forall|j: int| 0 <= j < i ==> !names_license(#[trigger] ls[j], text),
    ensures
        first_named(ls, text) == first_named(ls.subrange(i, ls.len() as int), text),
    decreases i,
{
    if i > 0 {
        assert(!names_license(ls[0], text));
        let rest = ls.drop_first();
        assert forall|j: int| 0 <= j < i - 1 implies !names_license(#[trigger] rest[j], text) by {
            assert(rest[j] == ls[j + 1]);
        }
        lemma_first_named(rest, text, i - 1);
        assert(rest.subrange(i - 1, rest.len() as int) =~= ls.subrange(i, ls.len() as int));
    } else {
        assert(ls.subrange(0, ls.len() as int) =~= ls);
    }
}

/// Classification picks the first license, in declaration order, that the text names.
pub proof fn lemma_first_named_license_wins(text: Seq<char>, i: int)
    requires
        1 <= i < all_licenses().len(),
        names_license(all_licenses()[i], text),
        forall|j: int| 1 <= j < i ==> !names_license(#[trigger] all_licenses()[j], text),
    ensures
        classify(text) == all_licenses()[i],
{
    let ls = all_licenses().drop_first();
    assert forall|j: int| 0 <= j < i - 1 implies !names_license(#[trigger] ls[j], text) by {
        assert(ls[j] == all_licenses()[j + 1]);
    }
    lemma_first_named(ls, text, i - 1);
    assert(ls.subrange(i - 1, ls.len() as int)[0] == all_licenses()[i]);
}

/// A text that names no license classifies as `Unknown`.
pub proof fn lemma_unnamed_is_unknown(text: Seq<char>)
    requires
        forall|j: int| 1 <= j < all_licenses().len() ==> !names_license(#[trigger] all_licenses()[j], text),
    ensures
        classify(text) == SupportedLicense::Unknown,
{
    let ls = all_licenses().drop_first();
    assert forall|j: int| 0 <= j < ls.len() implies !names_license(#[trigger] ls[j], text) by {
        assert(ls[j] == all_licenses()[j + 1]);
    }
    lemma_first_named(ls, text, ls.len() as int);
}

impl SupportedLicense {
    /// Whether `text` names this license.
    pub fn is_named_in(&self, text: &str) -> (r: bool)
        ensures
            r == names_license(*self, text@),
    {
        if contains_word(self.name(), text) {
            return true;
        }
        let aliases = self.aliases();
        let mut i: usize = 0;
        while i < aliases.len()
            invariant
                aliases@.len() == self.spec_aliases().len(),
                forall|k: int| 0 <= k < aliases@.len() ==> (#[trigger] aliases@[k])@ == self.spec_aliases()[k],
                forall|k: int| 0 <= k < i ==> !has_word(#[trigger] self.spec_aliases()[k], text@),
                !has_word(self.spec_name(), text@),
            decreases aliases.len() - i,
        {
            if contains_word(aliases[i], text) {
                return true;
            }
            i = i + 1;
        }
        false
    }

    /// The display name as an owned string.
    pub fn to_string(&self) -> (r: String)
        ensures
            r@ == self.spec_name(),
    {
        String::from_str(self.name())
    }
}

/// The license that per-license answers pick, from index `i` on: the first
/// license whose answer is true, `Unknown` where none is.
pub open spec fn pick_from(flags: Seq<bool>, i: int) -> SupportedLicense
    decreases all_licenses().len() - i,
{
    if i < 0 || i >= all_licenses().len() || i >= flags.len() {
        SupportedLicense::Unknown
    } else if flags[i] {
        all_licenses()[i]
    } else {
        pick_from(flags, i + 1)
    }
}

/// The license that answers `flags` pick, where `flags[i]` says whether the
/// text names `all_licenses()[i]`: the first named one after `Unknown`, in
/// declaration order.
pub open spec fn first_flagged(flags: Seq<bool>) -> SupportedLicense {
    pick_from(flags, 1)
}

proof fn lemma_pick_from(flags: Seq<bool>, text: Seq<char>, i: int)
    requires
        1 <= i <= all_licenses().len(),
        flags.len() == all_licenses().len(),
        forall|j: int| 1 <= j < flags.len() ==> flags[j] == names_license(#[trigger] all_licenses()[j], text),
    ensures
        pick_from(flags, i) == first_named(all_licenses().subrange(i, all_licenses().len() as int), text),
    decreases all_licenses().len() - i,
{
    let rest = all_licenses().subrange(i, all_licenses().len() as int);
    if i < all_licenses().len() {
        lemma_pick_from(flags, text, i + 1);
        assert(rest[0] == all_licenses()[i]);
        assert(rest.drop_first() =~= all_licenses().subrange(i + 1, all_licenses().len() as int));
    }
}

/// The license that per-license answers pick: the first one after `Unknown`,
/// in declaration order, whose answer is true.
pub fn license_from_matches(flags: &Vec<bool>) -> (r: SupportedLicense)
    ensures
        r == first_flagged(flags@),
{
    let all = SupportedLicense::all();
    let mut i: usize = 1;
    while i < all.len() && i < flags.len()
        invariant
            1 <= i,
            all@ == all_licenses(),
            first_flagged(flags@) == pick_from(flags@, i as int),
        decreases all.len() - i,
    {
        if flags[i] {
            return all[i];
        }
        i = i + 1;
    }
    SupportedLicense::Unknown
}

/// The license that `text` names, `Unknown` where it names none.
pub fn classify_by_name(text: &str) -> (r: SupportedLicense)
    ensures
        r == classify(text@),
{
    let all = SupportedLicense::all();
    let mut flags: Vec<bool> = vec![false];
    let mut i: usize = 1;
    while i < all.len()
        invariant
            1 <= i <= all@.len(),
            all@ == all_licenses(),
            flags@.len() == i,
            forall|j: int| 1 <= j < i ==> flags@[j] == names_license(#[trigger] all_licenses()[j], text@),
        decreases all.len() - i,
    {
        flags.push(all[i].is_named_in(text));
        i = i + 1;
    }
    proof {
        lemma_pick_from(flags@, text@, 1);
        assert(all_licenses().subrange(1, all_licenses().len() as int) =~= all_licenses().drop_first());
    }
    license_from_matches(&flags)
}

/// A license of the project, with where it was found.
#[derive(Debug, Clone)]
pub struct License {
    pub name: SupportedLicense,
    /// The license file in the project, where it was read from one.
    pub path: Option<String>,
    /// Where the license file can be read on the web.
    pub url: Option<String>,
}

pub struct LicenseView {
    pub name: SupportedLicense,
    pub path: Option<Seq<char>>,
    pub url: Option<Seq<char>>,
}

impl View for License {
    type V = LicenseView;

    open spec fn view(&self) -> LicenseView {
        LicenseView { name: self.name, path: opt_view(self.path), url: opt_view(self.url) }
    }
}

/// The web address of a recognised license file of a repository hosted on GitHub.
pub open spec fn license_link(
    name: SupportedLicense,
    path: Seq<char>,
    repository: Option<RepositoryView>,
) -> Option<Seq<char>> {
    match repository {
        Some(r) => if r.platform == RepositoryPlatform::Github && name
            != SupportedLicense::Unknown {
            Some(r.url + "/blob/master/"@ + last_segment(path, '/'))
        } else {
            None
        },
        None => None,
    }
}

pub open spec fn repository_view(r: Option<Repository>) -> Option<RepositoryView> {
    match r {
        Some(x) => Some(x@),
        None => None,
    }
}

impl License {
    /// The license that a declared name stands for.
    pub fn from_name(name: String) -> (r: License)
        ensures
            r@ == (LicenseView { name: classify(name@), path: None, url: None }),
    {
        License { name: classify_by_name(name.as_str()), path: None, url: None }
    }

    /// The license that a license file at `path` with text `contents` holds.
    pub fn from_file(path: String, contents: &str, repository: &Option<Repository>) -> (r: License)
        ensures
            r@ == (LicenseView {
                name: classify(contents@),
                path: Some(path@),
                url: license_link(classify(contents@), path@, repository_view(*repository)),
            }),
    {
        let name = classify_by_name(contents);
        let url = match repository {
            Some(repo) => {
                if repo.platform == RepositoryPlatform::Github && name != SupportedLicense::Unknown {
                    let k = find_after_last(path.as_str(), '/');
                    proof {
                        lemma_after_last(path@, '/');
                    }
                    let file = substring(path.as_str(), k, path.as_str().unicode_len());
                    Some(
                        repo.url.clone().concat("/blob/master/").concat(file.as_str()),
                    )
                } else {
                    None
                }
            },
            None => None,
        };
        License { name, path: Some(path), url }
    }

    /// A copy of this license.
    pub fn duplicate(&self) -> (r: License)
        ensures
            r == *self,
    {
        License { name: self.name, path: self.path.clone(), url: self.url.clone() }
    }
}

/// The file names, in any case, under which a project keeps its license.
pub open spec fn license_file_names() -> Seq<Seq<char>> {
    seq![
        "LICENSE"@,
        "LICENSE.md"@,
        "LICENSE.txt"@,
        "LICENCE"@,
        "LICENCE.md"@,
        "LICENCE.txt"@,
        "COPYING"@,
        "COPYING.md"@,
        "COPYING.txt"@,
        "UNLICENSE"@,
    ]
}

/// Whether the last component of `path` is a license file name.
pub open spec fn is_license_path(path: Seq<char>) -> bool {
    exists|i: int| 0 <= i < license_file_names().len() && names_file(#[trigger] license_file_names()[i], path)
}

/// The license files among `paths`, in order.
pub open spec fn license_paths(paths: Seq<String>) -> Seq<Seq<char>>
    decreases paths.len(),
{
    if paths.len() == 0 {
        Seq::empty()
    } else {
        let rest = license_paths(paths.drop_last());
        if is_license_path(paths.last()@) {
            rest.push(paths.last()@)
        } else {
            rest
        }
    }
}

impl License {
    /// Whether the last component of `path` is a license file name.
    pub fn is_license_file(path: &str) -> (r: bool)
        ensures
            r == is_license_path(path@),
    {
        let names: Vec<&'static str> = vec![
            "LICENSE",
            "LICENSE.md",
            "LICENSE.txt",
            "LICENCE",
            "LICENCE.md",
            "LICENCE.txt",
            "COPYING",
            "COPYING.md",
            "COPYING.txt",
            "UNLICENSE",
        ];
        assert(names@.map_values(|n: &str| n@) =~= license_file_names());
        let mut i: usize = 0;
        while i < names.len()
            invariant
                i <= names@.len(),
                names@.map_values(|n: &str| n@) == license_file_names(),
                forall|j: int| 0 <= j < i ==> !names_file(#[trigger] license_file_names()[j], path@),
            decreases names.len() - i,
        {
            assert(names@[i as int]@ == license_file_names()[i as int]);
            if is_file_named(names[i], path) {
                return true;
            }
            i = i + 1;
        }
        false
    }

    /// The license files among the files of a project.
    pub fn scan(paths: &Vec<String>) -> (r: Vec<String>)
        ensures
            r@.map_values(|s: String| s@) == license_paths(paths@),
    {
        let mut out: Vec<String> = Vec::new();
        let mut i: usize = 0;
        while i < paths.len()
            invariant
                i <= paths@.len(),
                out@.map_values(|s: String| s@) == license_paths(paths@.subrange(0, i as int)),
            decreases paths.len() - i,
        {
            let ghost before = out@;
            assert(paths@.subrange(0, i + 1).drop_last() =~= paths@.subrange(0, i as int));
            if License::is_license_file(paths[i].as_str()) {
                out.push(paths[i].clone());
                assert(out@.map_values(|s: String| s@) =~= before.map_values(|s: String| s@).push(
                    paths@[i as int]@,
                ));
            }
            i = i + 1;
        }
        assert(paths@.subrange(0, paths@.len() as int) =~= paths@);
        out
    }

    /// The record of the license file at `path` with text `contents`.
    pub fn record(path: String, contents: &str, repository: &Option<Repository>) -> (r: ConverterOutput)
        ensures
            r@ == (RecordView {
                license: Some(
                    LicenseView {
                        name: classify(contents@),
                        path: Some(path@),
                        url: license_link(classify(contents@), path@, repository_view(*repository)),
                    },
                ),
                ..empty_record(path@)
            }),
    {
        let mut out = ConverterOutput::empty();
        out.source_config_file_path = path.clone();
        out.license = Some(License::from_file(path, contents, repository));
        out
    }

    /// Whether a license file has to be written for this license: it was not
    /// read from one and it is known.
    pub fn needs_file(&self) -> (r: bool)
        ensures
            r == (self.path is None && self.name != SupportedLicense::Unknown),
    {
        self.path.is_none() && self.name != SupportedLicense::Unknown
    }
}

} // verus!
