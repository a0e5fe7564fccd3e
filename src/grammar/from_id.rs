//! The alternative of each non-terminal that a production number stands for.

use vstd::prelude::*;

use super::definitions::{
    AbortMigrationStmt,
    AccessKind,
    AccessKindList,
    AccessPermStmt,
    AccessPolicyAction,
    AccessPolicyDeclarationBlock,
    AccessPolicyDeclarationShort,
    AccessUsingStmt,
    AccessWhenStmt,
    AdministerStmt,
    AliasDecl,
    AliasDeclaration,
    AliasDeclarationShort,
    AliasedExpr,
    AliasedExprList,
    AliasedExprListInner,
    AlterAbstract,
    AlterAccessPolicyCommand,
    AlterAccessPolicyCommandsBlock,
    AlterAccessPolicyCommandsList,
    AlterAccessPolicyStmt,
    AlterAliasCommand,
    AlterAliasCommandsBlock,
    AlterAliasCommandsList,
    AlterAliasStmt,
    AlterAnnotationCommand,
    AlterAnnotationCommandsBlock,
    AlterAnnotationCommandsList,
    AlterAnnotationStmt,
    AlterAnnotationValueStmt,
    AlterBranchCommand,
    AlterBranchCommandsBlock,
    AlterBranchCommandsList,
    AlterBranchStmt,
    AlterCastCommand,
    AlterCastCommandsBlock,
    AlterCastCommandsList,
    AlterCastStmt,
    AlterCommand,
    AlterCommandsBlock,
    AlterCommandsList,
    AlterConcreteConstraintCommand,
    AlterConcreteConstraintCommandsBlock,
    AlterConcreteConstraintCommandsList,
    AlterConcreteConstraintStmt,
    AlterConcreteIndexCommand,
    AlterConcreteIndexCommandsBlock,
    AlterConcreteIndexCommandsList,
    AlterConcreteIndexStmt,
    AlterConcreteLinkCommand,
    AlterConcreteLinkCommandsBlock,
    AlterConcreteLinkCommandsList,
    AlterConcreteLinkStmt,
    AlterConcretePropertyCommand,
    AlterConcretePropertyCommandsBlock,
    AlterConcretePropertyCommandsList,
    AlterConcretePropertyStmt,
    AlterConstraintStmt,
    AlterCurrentMigrationStmt,
    AlterDatabaseCommand,
    AlterDatabaseCommandsBlock,
    AlterDatabaseCommandsList,
    AlterDatabaseStmt,
    AlterDeferredStmt,
    AlterExtending,
    AlterExtensionStmt,
    AlterFunctionCommand,
    AlterFunctionCommandsBlock,
    AlterFunctionCommandsList,
    AlterFunctionStmt,
    AlterGlobalCommand,
    AlterGlobalCommandsBlock,
    AlterGlobalCommandsList,
    AlterGlobalStmt,
    AlterIndexCommand,
    AlterIndexCommandsBlock,
    AlterIndexCommandsList,
    AlterIndexStmt,
    AlterLinkCommand,
    AlterLinkCommandsBlock,
    AlterLinkCommandsList,
    AlterLinkStmt,
    AlterMigrationCommand,
    AlterMigrationCommandsBlock,
    AlterMigrationCommandsList,
    AlterMigrationStmt,
    AlterModuleStmt,
    AlterObjectTypeCommand,
    AlterObjectTypeCommandsBlock,
    AlterObjectTypeCommandsList,
    AlterObjectTypeStmt,
    AlterOperatorCommand,
    AlterOperatorCommandsBlock,
    AlterOperatorCommandsList,
    AlterOperatorStmt,
    AlterOwnedStmt,
    AlterPermissionCommand,
    AlterPermissionCommandsBlock,
    AlterPermissionCommandsList,
    AlterPermissionStmt,
    AlterPropertyCommand,
    AlterPropertyCommandsBlock,
    AlterPropertyCommandsList,
    AlterPropertyStmt,
    AlterRewriteCommand,
    AlterRewriteCommandsBlock,
    AlterRewriteCommandsList,
    AlterRewriteStmt,
    AlterRoleCommand,
    AlterRoleCommandsBlock,
    AlterRoleCommandsList,
    AlterRoleExtending,
    AlterRoleStmt,
    AlterScalarTypeCommand,
    AlterScalarTypeCommandsBlock,
    AlterScalarTypeCommandsList,
    AlterScalarTypeStmt,
    AlterSimpleExtending,
    AlterTriggerCommand,
    AlterTriggerCommandsBlock,
    AlterTriggerCommandsList,
    AlterTriggerStmt,
    AnalyzeStmt,
    AnnotationDeclaration,
    AnnotationDeclarationShort,
    AnnoyingFor,
    AnyIdentifier,
    AnyNodeName,
    AtomicExpr,
    AtomicPath,
    BaseAtomicExpr,
    BaseBooleanConstant,
    BaseBytesConstant,
    BaseName,
    BaseNumberConstant,
    BaseStringConstant,
    BranchOptions,
    BranchStmt,
    ByClause,
    CastAllowedUse,
    CastCode,
    Collection,
    CollectionTypeName,
    ColonedIdents,
    CommitMigrationStmt,
    CompareOp,
    ComputableShapePointer,
    ConcreteConstraintBlock,
    ConcreteConstraintShort,
    ConcreteIndexDeclarationBlock,
    ConcreteIndexDeclarationShort,
    ConcreteLinkBlock,
    ConcreteLinkShort,
    ConcretePropertyBlock,
    ConcretePropertyShort,
    ConcreteUnknownPointerBlock,
    ConcreteUnknownPointerObjectShort,
    ConcreteUnknownPointerShort,
    ConfigOp,
    ConfigScope,
    ConfigStmt,
    Constant,
    ConstraintDeclaration,
    ConstraintDeclarationShort,
    CreateAccessPolicyCommand,
    CreateAccessPolicyCommandsBlock,
    CreateAccessPolicyCommandsList,
    CreateAccessPolicySDLCommandFull,
    CreateAccessPolicySDLCommandShort,
    CreateAccessPolicySDLCommandsBlock,
    CreateAccessPolicySDLCommandsList,
    CreateAccessPolicyStmt,
    CreateAliasCommand,
    CreateAliasCommandsBlock,
    CreateAliasCommandsList,
    CreateAliasSDLCommandFull,
    CreateAliasSDLCommandShort,
    CreateAliasSDLCommandsBlock,
    CreateAliasSDLCommandsList,
    CreateAliasSingleSDLCommandBlock,
    CreateAliasStmt,
    CreateAnnotationCommand,
    CreateAnnotationCommandsBlock,
    CreateAnnotationCommandsList,
    CreateAnnotationStmt,
    CreateAnnotationValueStmt,
    CreateBranchStmt,
    CreateCastCommand,
    CreateCastCommandsBlock,
    CreateCastCommandsList,
    CreateCastStmt,
    CreateCommand,
    CreateCommandsBlock,
    CreateCommandsList,
    CreateConcreteConstraintStmt,
    CreateConcreteIndexSDLCommandFull,
    CreateConcreteIndexSDLCommandShort,
    CreateConcreteIndexSDLCommandsBlock,
    CreateConcreteIndexSDLCommandsList,
    CreateConcreteIndexStmt,
    CreateConcreteLinkCommand,
    CreateConcreteLinkCommandsBlock,
    CreateConcreteLinkCommandsList,
    CreateConcreteLinkSDLCommandBlock,
    CreateConcreteLinkSDLCommandFull,
    CreateConcreteLinkSDLCommandShort,
    CreateConcreteLinkSDLCommandsBlock,
    CreateConcreteLinkSDLCommandsList,
    CreateConcreteLinkStmt,
    CreateConcretePropertyCommand,
    CreateConcretePropertyCommandsBlock,
    CreateConcretePropertyCommandsList,
    CreateConcretePropertySDLCommandBlock,
    CreateConcretePropertySDLCommandFull,
    CreateConcretePropertySDLCommandShort,
    CreateConcretePropertySDLCommandsBlock,
    CreateConcretePropertySDLCommandsList,
    CreateConcretePropertyStmt,
    CreateConstraintStmt,
    CreateDatabaseCommand,
    CreateDatabaseCommandsBlock,
    CreateDatabaseCommandsList,
    CreateDatabaseStmt,
    CreateExtensionCommand,
    CreateExtensionCommandsBlock,
    CreateExtensionCommandsList,
    CreateExtensionPackageCommand,
    CreateExtensionPackageCommandsBlock,
    CreateExtensionPackageCommandsList,
    CreateExtensionPackageMigrationStmt,
    CreateExtensionPackageStmt,
    CreateExtensionStmt,
    CreateFunctionArgs,
    CreateFunctionCommand,
    CreateFunctionCommandsBlock,
    CreateFunctionCommandsList,
    CreateFunctionSDLCommandFull,
    CreateFunctionSDLCommandShort,
    CreateFunctionSDLCommandsBlock,
    CreateFunctionSDLCommandsList,
    CreateFunctionSingleSDLCommandBlock,
    CreateFunctionStmt,
    CreateFutureStmt,
    CreateGlobalCommand,
    CreateGlobalCommandsBlock,
    CreateGlobalCommandsList,
    CreateGlobalSDLCommandFull,
    CreateGlobalSDLCommandShort,
    CreateGlobalSDLCommandsBlock,
    CreateGlobalSDLCommandsList,
    CreateGlobalStmt,
    CreateIndexCommand,
    CreateIndexCommandsBlock,
    CreateIndexCommandsList,
    CreateIndexMatchCommand,
    CreateIndexMatchCommandsBlock,
    CreateIndexMatchCommandsList,
    CreateIndexMatchStmt,
    CreateIndexSDLCommandFull,
    CreateIndexSDLCommandShort,
    CreateIndexSDLCommandsBlock,
    CreateIndexSDLCommandsList,
    CreateIndexStmt,
    CreateLinkCommand,
    CreateLinkCommandsBlock,
    CreateLinkCommandsList,
    CreateLinkSDLCommandBlock,
    CreateLinkSDLCommandFull,
    CreateLinkSDLCommandShort,
    CreateLinkSDLCommandsBlock,
    CreateLinkSDLCommandsList,
    CreateLinkStmt,
    CreateMigrationCommand,
    CreateMigrationCommandsBlock,
    CreateMigrationCommandsList,
    CreateMigrationStmt,
    CreateModuleStmt,
    CreateObjectTypeCommand,
    CreateObjectTypeCommandsBlock,
    CreateObjectTypeCommandsList,
    CreateObjectTypeSDLCommandBlock,
    CreateObjectTypeSDLCommandFull,
    CreateObjectTypeSDLCommandShort,
    CreateObjectTypeSDLCommandsBlock,
    CreateObjectTypeSDLCommandsList,
    CreateObjectTypeStmt,
    CreateOperatorCommand,
    CreateOperatorCommandsBlock,
    CreateOperatorCommandsList,
    CreateOperatorStmt,
    CreatePermissionCommand,
    CreatePermissionCommandsBlock,
    CreatePermissionCommandsList,
    CreatePermissionSDLCommandFull,
    CreatePermissionSDLCommandShort,
    CreatePermissionSDLCommandsBlock,
    CreatePermissionSDLCommandsList,
    CreatePermissionStmt,
    CreatePropertyCommand,
    CreatePropertyCommandsBlock,
    CreatePropertyCommandsList,
    CreatePropertySDLCommandFull,
    CreatePropertySDLCommandShort,
    CreatePropertySDLCommandsBlock,
    CreatePropertySDLCommandsList,
    CreatePropertyStmt,
    CreatePseudoTypeCommand,
    CreatePseudoTypeCommandsBlock,
    CreatePseudoTypeCommandsList,
    CreatePseudoTypeStmt,
    CreateRewriteCommand,
    CreateRewriteCommandsBlock,
    CreateRewriteCommandsList,
    CreateRewriteSDLCommandFull,
    CreateRewriteSDLCommandShort,
    CreateRewriteSDLCommandsBlock,
    CreateRewriteSDLCommandsList,
    CreateRewriteStmt,
    CreateRoleCommand,
    CreateRoleCommandsBlock,
    CreateRoleCommandsList,
    CreateRoleStmt,
    CreateSDLCommandFull,
    CreateSDLCommandShort,
    CreateSDLCommandsBlock,
    CreateSDLCommandsList,
    CreateScalarTypeCommand,
    CreateScalarTypeCommandsBlock,
    CreateScalarTypeCommandsList,
    CreateScalarTypeSDLCommandBlock,
    CreateScalarTypeSDLCommandFull,
    CreateScalarTypeSDLCommandShort,
    CreateScalarTypeSDLCommandsBlock,
    CreateScalarTypeSDLCommandsList,
    CreateScalarTypeStmt,
    CreateSimpleExtending,
    CreateTriggerCommand,
    CreateTriggerCommandsBlock,
    CreateTriggerCommandsList,
    CreateTriggerSDLCommandFull,
    CreateTriggerSDLCommandShort,
    CreateTriggerSDLCommandsBlock,
    CreateTriggerSDLCommandsList,
    CreateTriggerStmt,
    DDLStmt,
    DDLWithBlock,
    DatabaseName,
    DatabaseStmt,
    DescribeFormat,
    DescribeStmt,
    DotName,
    DottedIdents,
    DropAccessPolicyStmt,
    DropAliasStmt,
    DropAnnotationStmt,
    DropAnnotationValueStmt,
    DropBranchStmt,
    DropCastStmt,
    DropConcreteConstraintStmt,
    DropConcreteIndexCommand,
    DropConcreteIndexCommandsBlock,
    DropConcreteIndexCommandsList,
    DropConcreteIndexStmt,
    DropConcreteLinkCommand,
    DropConcreteLinkCommandsBlock,
    DropConcreteLinkCommandsList,
    DropConcreteLinkStmt,
    DropConcretePropertyStmt,
    DropConstraintStmt,
    DropDatabaseStmt,
    DropExtensionPackageMigrationStmt,
    DropExtensionPackageStmt,
    DropExtensionStmt,
    DropFunctionStmt,
    DropFutureStmt,
    DropGlobalStmt,
    DropIndexMatchStmt,
    DropIndexStmt,
    DropLinkCommand,
    DropLinkCommandsBlock,
    DropLinkCommandsList,
    DropLinkStmt,
    DropMigrationStmt,
    DropModuleStmt,
    DropObjectTypeCommand,
    DropObjectTypeCommandsBlock,
    DropObjectTypeCommandsList,
    DropObjectTypeStmt,
    DropOperatorStmt,
    DropPermissionStmt,
    DropPropertyStmt,
    DropRewriteStmt,
    DropRoleStmt,
    DropScalarTypeStmt,
    DropTriggerStmt,
    EdgeQLBlock,
    EdgeQLGrammar,
    Expr,
    ExprList,
    ExprListInner,
    ExprStmt,
    ExprStmtAnnoying,
    ExprStmtAnnoyingCore,
    ExprStmtSimple,
    ExprStmtSimpleCore,
    Extending,
    ExtendingSimple,
    ExtensionPackageStmt,
    ExtensionRequirementDeclaration,
    ExtensionStmt,
    ExtensionVersion,
    FilterClause,
    FreeComputableShapePointer,
    FreeComputableShapePointerList,
    FreeComputableShapePointerListInner,
    FreeShape,
    FreeSimpleShapePointer,
    FreeStepName,
    FromFunction,
    FullTypeExpr,
    FuncApplication,
    FuncArgList,
    FuncArgListInner,
    FuncCallArg,
    FuncCallArgExpr,
    FuncDeclArg,
    FuncDeclArgList,
    FuncDeclArgListInner,
    FuncDeclArgName,
    FuncDeclArgs,
    FuncExpr,
    FunctionDeclaration,
    FunctionDeclarationShort,
    FunctionType,
    FutureRequirementDeclaration,
    FutureStmt,
    GenExpr,
    GlobalDeclaration,
    GlobalDeclarationShort,
    GroupingAtom,
    GroupingAtomList,
    GroupingAtomListInner,
    GroupingElement,
    GroupingElementList,
    GroupingElementListInner,
    GroupingIdent,
    GroupingIdentList,
    Identifier,
    IfThenElseExpr,
    IndexArg,
    IndexArgList,
    IndexArgListInner,
    IndexDeclaration,
    IndexDeclarationShort,
    IndexExtArgList,
    IndirectionEl,
    InnerDDLStmt,
    InternalGroup,
    LimitClause,
    LinkDeclaration,
    LinkDeclarationShort,
    MigrationStmt,
    ModuleDeclaration,
    ModuleName,
    NamedTuple,
    NamedTupleElement,
    NamedTupleElementList,
    NamedTupleElementListInner,
    NestedQLBlockStmt,
    NodeName,
    NontrivialTypeExpr,
    ObjectTypeDeclaration,
    ObjectTypeDeclarationShort,
    OffsetClause,
    OnExpr,
    OnSourceDeleteResetStmt,
    OnSourceDeleteStmt,
    OnTargetDeleteResetStmt,
    OnTargetDeleteStmt,
    OperatorCode,
    OperatorKind,
    OptAlterUsingClause,
    OptAnySubShape,
    OptConcreteConstraintArgList,
    OptCreateAccessPolicyCommandsBlock,
    OptCreateAnnotationCommandsBlock,
    OptCreateCommandsBlock,
    OptCreateConcreteLinkCommandsBlock,
    OptCreateConcretePropertyCommandsBlock,
    OptCreateDatabaseCommandsBlock,
    OptCreateExtensionCommandsBlock,
    OptCreateExtensionPackageCommandsBlock,
    OptCreateGlobalCommandsBlock,
    OptCreateIndexCommandsBlock,
    OptCreateIndexMatchCommandsBlock,
    OptCreateLinkCommandsBlock,
    OptCreateMigrationCommandsBlock,
    OptCreateObjectTypeCommandsBlock,
    OptCreateOperatorCommandsBlock,
    OptCreatePermissionCommandsBlock,
    OptCreatePropertyCommandsBlock,
    OptCreatePseudoTypeCommandsBlock,
    OptCreateRewriteCommandsBlock,
    OptCreateRoleCommandsBlock,
    OptCreateScalarTypeCommandsBlock,
    OptCreateTriggerCommandsBlock,
    OptDefault,
    OptDeferred,
    OptDelegated,
    OptDirection,
    OptDropConcreteIndexCommandsBlock,
    OptDropConcreteLinkCommandsBlock,
    OptDropLinkCommandsBlock,
    OptDropObjectTypeCommandsBlock,
    OptExceptExpr,
    OptExprList,
    OptExtending,
    OptExtendingSimple,
    OptExtensionVersion,
    OptFilterClause,
    OptFuncArgList,
    OptGroupingAlias,
    OptIfNotExists,
    OptIndexArgList,
    OptIndexExtArgList,
    OptMigrationNameParentName,
    OptNonesOrder,
    OptOnExpr,
    OptParameterKind,
    OptPosCallArgList,
    OptPosition,
    OptPtrQuals,
    OptPtrTarget,
    OptSelectLimit,
    OptSemicolons,
    OptShortExtending,
    OptSortClause,
    OptSuperuser,
    OptTransactionModeList,
    OptTypeIntersection,
    OptTypeQualifier,
    OptUnlessConflictClause,
    OptUsingBlock,
    OptUsingClause,
    OptWhenBlock,
    OptWithDDLStmt,
    OptionalOptional,
    OptionallyAliasedExpr,
    OrderbyExpr,
    OrderbyList,
    ParameterKind,
    ParenExpr,
    ParenTypeExpr,
    PartialReservedKeyword,
    Path,
    PathNodeName,
    PathStep,
    PathStepName,
    PermissionDeclaration,
    PermissionDeclarationShort,
    PointerName,
    PopulateMigrationStmt,
    PosCallArg,
    PosCallArgList,
    PropertyDeclaration,
    PropertyDeclarationShort,
    PtrIdentifier,
    PtrName,
    PtrNodeName,
    PtrQualifiedNodeName,
    PtrQuals,
    PtrTarget,
    QualifiedName,
    RenameStmt,
    ReservedKeyword,
    ResetFieldStmt,
    ResetSchemaStmt,
    ResetStmt,
    RewriteDeclarationBlock,
    RewriteDeclarationShort,
    RewriteKind,
    RewriteKindList,
    RoleStmt,
    SDLBlockStatement,
    SDLCommandBlock,
    SDLDocument,
    SDLShortStatement,
    SDLStatement,
    SDLStatements,
    ScalarTypeDeclaration,
    ScalarTypeDeclarationShort,
    SchemaItem,
    SchemaObjectClass,
    SelectLimit,
    Semicolons,
    SessionStmt,
    SetLiteral,
    SetAnnotation,
    SetCardinalityStmt,
    SetDelegatedStmt,
    SetField,
    SetFieldStmt,
    SetGlobalTypeStmt,
    SetPointerTypeStmt,
    SetRequiredInCreateStmt,
    SetRequiredStmt,
    SetStmt,
    Shape,
    ShapeElement,
    ShapeElementList,
    ShapeElementListInner,
    ShapePath,
    ShapePointer,
    ShortExtending,
    ShortNodeName,
    ShortTypeName,
    ShortTypeNameList,
    SimpleDelete,
    SimpleFor,
    SimpleGroup,
    SimpleInsert,
    SimpleSelect,
    SimpleShapePath,
    SimpleShapePointer,
    SimpleTypeName,
    SimpleTypeNameList,
    SimpleUpdate,
    SingleStatement,
    SortClause,
    Splat,
    StartMigrationStmt,
    StatementBlock,
    Stmt,
    StringInterpolation,
    StringInterpolationTail,
    Subtype,
    SubtypeList,
    SubtypeListInner,
    TransactionMode,
    TransactionModeList,
    TransactionStmt,
    TriggerDeclarationBlock,
    TriggerDeclarationShort,
    TriggerKind,
    TriggerKindList,
    TriggerScope,
    TriggerTiming,
    Tuple,
    TypeExpr,
    TypeIntersection,
    TypeName,
    TypeNameList,
    UnlessConflictCause,
    UnlessConflictSpecifier,
    UnqualifiedPointerName,
    UnreservedKeyword,
    Using,
    UsingClause,
    UsingStmt,
    WithBlock,
    WithDDLStmt,
    WithDecl,
    WithDeclList,
    WithDeclListInner,
};
use super::FromId;

verus! {

impl FromId for AbortMigrationStmt {
    open spec fn has_production(id: usize) -> bool {
        id <= 1
    }

    open spec fn production_id(self) -> usize {
        match self {
            Self::ABORT_MIGRATION => 0,
            Self::ABORT_MIGRATION_REWRITE => 1,
        }
    }

    fn from_id(id: usize) -> Self {
        match id {
            0 => Self::ABORT_MIGRATION,
            _ => Self::ABORT_MIGRATION_REWRITE,
        }
    }
}

impl FromId for AccessKind {
    open spec fn has_production(id: usize) -> bool {
        2 <= id <= 8
    }

    open spec fn production_id(self) -> usize {
        match self {
            Self::ALL => 2,
            Self::DELETE => 3,
            Self::INSERT => 4,
            Self::SELECT => 5,
            Self::UPDATE => 6,
            Self::UPDATE_READ => 7,
            Self::UPDATE_WRITE => 8,
        }
    }

    fn from_id(id: usize) -> Self {
        match id {
            2 => Self::ALL,
            3 => Self::DELETE,
            4 => Self::INSERT,
            5 => Self::SELECT,
            6 => Self::UPDATE,
            7 => Self::UPDATE_READ,
            _ => Self::UPDATE_WRITE,
        }
    }
}

impl FromId for AccessKindList {
    open spec fn has_production(id: usize) -> bool {
        9 <= id <= 10
    }

    open spec fn production_id(self) -> usize {
        match self {
            Self::AccessKind => 9,
            Self::AccessKindList_COMMA_AccessKind => 10,
        }
    }

    fn from_id(id: usize) -> Self {
        match id {
            9 => Self::AccessKind,
            _ => Self::AccessKindList_COMMA_AccessKind,
        }
    }
}

impl FromId for AccessPermStmt {
    open spec fn has_production(id: usize) -> bool {
        id == 11
    }

    open spec fn production_id(self) -> usize {
        match self {
            Self::AccessPolicyAction_AccessKindList => 11,
        }
    }

    fn from_id(_id: usize) -> Self {
        Self::AccessPolicyAction_AccessKindList
    }
}

impl FromId for AccessPolicyAction {
    open spec fn has_production(id: usize) -> bool {
        12 <= id <= 13
    }

    open spec fn production_id(self) -> usize {
        match self {
            Self::ALLOW => 12,
            Self::DENY => 13,
        }
    }

    fn from_id(id: usize) -> Self {
        match id {
            12 => Self::ALLOW,
            _ => Self::DENY,
        }
    }
}

impl FromId for AccessPolicyDeclarationBlock {
    open spec fn has_production(id: usize) -> bool {
        id == 14
    }

    open spec fn production_id(self) -> usize {
        match self {
            Self::ACCESS_POLICY_ShortNodeName_OptWhenBlock_AccessPolicyAction_AccessKindList_OptUsingBlock_CreateAccessPolicySDLCommandsBlock => 14,
        }
    }

    fn from_id(_id: usize) -> Self {
        Self::ACCESS_POLICY_ShortNodeName_OptWhenBlock_AccessPolicyAction_AccessKindList_OptUsingBlock_CreateAccessPolicySDLCommandsBlock
    }
}

impl FromId for AccessPolicyDeclarationShort {
    open spec fn has_production(id: usize) -> bool {
        id == 15
    }

    open spec fn production_id(self) -> usize {
        match self {
            Self::ACCESS_POLICY_ShortNodeName_OptWhenBlock_AccessPolicyAction_AccessKindList_OptUsingBlock => 15,
        }
    }

    fn from_id(_id: usize) -> Self {
        Self::ACCESS_POLICY_ShortNodeName_OptWhenBlock_AccessPolicyAction_AccessKindList_OptUsingBlock
    }
}

impl FromId for AccessUsingStmt {
    open spec fn has_production(id: usize) -> bool {
        16 <= id <= 17
    }

    open spec fn production_id(self) -> usize {
        match self {
            Self::RESET_EXPRESSION => 16,
            Self::USING_ParenExpr => 17,
        }
    }

    fn from_id(id: usize) -> Self {
        match id {
            16 => Self::RESET_EXPRESSION,
            _ => Self::USING_ParenExpr,
        }
    }
}

impl FromId for AccessWhenStmt {
    open spec fn has_production(id: usize) -> bool {
        18 <= id <= 19
    }

    open spec fn production_id(self) -> usize {
        match self {
            Self::RESET_WHEN => 18,
            Self::WHEN_ParenExpr => 19,
        }
    }

    fn from_id(id: usize) -> Self {
        match id {
            18 => Self::RESET_WHEN,
            _ => Self::WHEN_ParenExpr,
        }
    }
}

impl FromId for AdministerStmt {
    open spec fn has_production(id: usize) -> bool {
        id == 20
    }

    open spec fn production_id(self) -> usize {
        match self {
            Self::ADMINISTER_FuncExpr => 20,
        }
    }

    fn from_id(_id: usize) -> Self {
        Self::ADMINISTER_FuncExpr
    }
}

impl FromId for AliasDecl {
    open spec fn has_production(id: usize) -> bool {
        21 <= id <= 24
    }

    open spec fn production_id(self) -> usize {
        match self {
            Self::AliasedExpr => 21,
            Self::Identifier_ASSIGN_ExprStmtSimple => 22,
            Self::Identifier_AS_MODULE_ModuleName => 23,
            Self::MODULE_ModuleName => 24,
        }
    }

    fn from_id(id: usize) -> Self {
        match id {
            21 => Self::AliasedExpr,
            22 => Self::Identifier_ASSIGN_ExprStmtSimple,
            23 => Self::Identifier_AS_MODULE_ModuleName,
            _ => Self::MODULE_ModuleName,
        }
    }
}

impl FromId for AliasDeclaration {
    open spec fn has_production(id: usize) -> bool {
        id == 25
    }

    open spec fn production_id(self) -> usize {
        match self {
            Self::ALIAS_NodeName_CreateAliasSDLCommandsBlock => 25,
        }
    }

    fn from_id(_id: usize) -> Self {
        Self::ALIAS_NodeName_CreateAliasSDLCommandsBlock
    }
}

impl FromId for AliasDeclarationShort {
    open spec fn has_production(id: usize) -> bool {
        26 <= id <= 27
    }

    open spec fn production_id(self) -> usize {
        match self {
            Self::ALIAS_NodeName_CreateAliasSingleSDLCommandBlock => 26,
            Self::ALIAS_NodeName_ASSIGN_GenExpr => 27,
        }
    }

    fn from_id(id: usize) -> Self {
        match id {
            26 => Self::ALIAS_NodeName_CreateAliasSingleSDLCommandBlock,
            _ => Self::ALIAS_NodeName_ASSIGN_GenExpr,
        }
    }
}

impl FromId for AliasedExpr {
    open spec fn has_production(id: usize) -> bool {
        id == 28
    }

    open spec fn production_id(self) -> usize {
        match self {
            Self::Identifier_ASSIGN_Expr => 28,
        }
    }

    fn from_id(_id: usize) -> Self {
        Self::Identifier_ASSIGN_Expr
    }
}

impl FromId for AliasedExprList {
    open spec fn has_production(id: usize) -> bool {
        29 <= id <= 30
    }

    open spec fn production_id(self) -> usize {
        match self {
            Self::AliasedExprListInner => 29,
            Self::AliasedExprListInner_COMMA => 30,
        }
    }

    fn from_id(id: usize) -> Self {
        match id {
            29 => Self::AliasedExprListInner,
            _ => Self::AliasedExprListInner_COMMA,
        }
    }
}

impl FromId for AliasedExprListInner {
    open spec fn has_production(id: usize) -> bool {
        31 <= id <= 32
    }

    open spec fn production_id(self) -> usize {
        match self {
            Self::AliasedExpr => 31,
            Self::AliasedExprListInner_COMMA_AliasedExpr => 32,
        }
    }

    fn from_id(id: usize) -> Self {
        match id {
            31 => Self::AliasedExpr,
            _ => Self::AliasedExprListInner_COMMA_AliasedExpr,
        }
    }
}

impl FromId for AlterAbstract {
    open spec fn has_production(id: usize) -> bool {
        33 <= id <= 36
    }

    open spec fn production_id(self) -> usize {
        match self {
            Self::DROP_ABSTRACT => 33,
            Self::RESET_ABSTRACT => 34,
            Self::SET_ABSTRACT => 35,
            Self::SET_NOT_ABSTRACT => 36,
        }
    }

    fn from_id(id: usize) -> Self {
        match id {
            33 => Self::DROP_ABSTRACT,
            34 => Self::RESET_ABSTRACT,
            35 => Self::SET_ABSTRACT,
            _ => Self::SET_NOT_ABSTRACT,
        }
    }
}

impl FromId for AlterAccessPolicyCommand {
    open spec fn has_production(id: usize) -> bool {
        37 <= id <= 45
    }

    open spec fn production_id(self) -> usize {
        match self {
            Self::AccessPermStmt => 37,
            Self::AccessUsingStmt => 38,
            Self::AccessWhenStmt => 39,
            Self::AlterAnnotationValueStmt => 40,
            Self::CreateAnnotationValueStmt => 41,
            Self::DropAnnotationValueStmt => 42,
            Self::RenameStmt => 43,
            Self::ResetFieldStmt => 44,
            Self::SetFieldStmt => 45,
        }
    }

    fn from_id(id: usize) -> Self {
        match id {
            37 => Self::AccessPermStmt,
            38 => Self::AccessUsingStmt,
            39 => Self::AccessWhenStmt,
            40 => Self::AlterAnnotationValueStmt,
            41 => Self::CreateAnnotationValueStmt,
            42 => Self::DropAnnotationValueStmt,
            43 => Self::RenameStmt,
            44 => Self::ResetFieldStmt,
            _ => Self::SetFieldStmt,
        }
    }
}

impl FromId for AlterAccessPolicyCommandsBlock {
    open spec fn has_production(id: usize) -> bool {
        46 <= id <= 49
    }

    open spec fn production_id(self) -> usize {
        match self {
            Self::AlterAccessPolicyCommand => 46,
            Self::LBRACE_AlterAccessPolicyCommandsList_OptSemicolons_RBRACE => 47,
            Self::LBRACE_OptSemicolons_RBRACE => 48,
            Self::LBRACE_Semicolons_AlterAccessPolicyCommandsList_OptSemicolons_RBRACE => 49,
        }
    }

    fn from_id(id: usize) -> Self {
        match id {
            46 => Self::AlterAccessPolicyCommand,
            47 => Self::LBRACE_AlterAccessPolicyCommandsList_OptSemicolons_RBRACE,
            48 => Self::LBRACE_OptSemicolons_RBRACE,
            _ => Self::LBRACE_Semicolons_AlterAccessPolicyCommandsList_OptSemicolons_RBRACE,
        }
    }
}

impl FromId for AlterAccessPolicyCommandsList {
    open spec fn has_production(id: usize) -> bool {
        50 <= id <= 51
    }

    open spec fn production_id(self) -> usize {
        match self {
            Self::AlterAccessPolicyCommand => 50,
            Self::AlterAccessPolicyCommandsList_Semicolons_AlterAccessPolicyCommand => 51,
        }
    }

    fn from_id(id: usize) -> Self {
        match id {
            50 => Self::AlterAccessPolicyCommand,
            _ => Self::AlterAccessPolicyCommandsList_Semicolons_AlterAccessPolicyCommand,
        }
    }
}

impl FromId for AlterAccessPolicyStmt {
    open spec fn has_production(id: usize) -> bool {
        id == 52
    }

    open spec fn production_id(self) -> usize {
        match self {
            Self::ALTER_ACCESS_POLICY_UnqualifiedPointerName_AlterAccessPolicyCommandsBlock => 52,
        }
    }

    fn from_id(_id: usize) -> Self {
        Self::ALTER_ACCESS_POLICY_UnqualifiedPointerName_AlterAccessPolicyCommandsBlock
    }
}

impl FromId for AlterAliasCommand {
    open spec fn has_production(id: usize) -> bool {
        53 <= id <= 59
    }

    open spec fn production_id(self) -> usize {
        match self {
            Self::AlterAnnotationValueStmt => 53,
            Self::CreateAnnotationValueStmt => 54,
            Self::DropAnnotationValueStmt => 55,
            Self::RenameStmt => 56,
            Self::ResetFieldStmt => 57,
            Self::SetFieldStmt => 58,
            Self::UsingStmt => 59,
        }
    }

    fn from_id(id: usize) -> Self {
        match id {
            53 => Self::AlterAnnotationValueStmt,
            54 => Self::CreateAnnotationValueStmt,
            55 => Self::DropAnnotationValueStmt,
            56 => Self::RenameStmt,
            57 => Self::ResetFieldStmt,
            58 => Self::SetFieldStmt,
            _ => Self::UsingStmt,
        }
    }
}

impl FromId for AlterAliasCommandsBlock {
    open spec fn has_production(id: usize) -> bool {
        60 <= id <= 63
    }

    open spec fn production_id(self) -> usize {
        match self {
            Self::AlterAliasCommand => 60,
            Self::LBRACE_AlterAliasCommandsList_OptSemicolons_RBRACE => 61,
            Self::LBRACE_OptSemicolons_RBRACE => 62,
            Self::LBRACE_Semicolons_AlterAliasCommandsList_OptSemicolons_RBRACE => 63,
        }
    }

    fn from_id(id: usize) -> Self {
        match id {
            60 => Self::AlterAliasCommand,
            61 => Self::LBRACE_AlterAliasCommandsList_OptSemicolons_RBRACE,
            62 => Self::LBRACE_OptSemicolons_RBRACE,
            _ => Self::LBRACE_Semicolons_AlterAliasCommandsList_OptSemicolons_RBRACE,
        }
    }
}

impl FromId for AlterAliasCommandsList {
    open spec fn has_production(id: usize) -> bool {
        64 <= id <= 65
    }

    open spec fn production_id(self) -> usize {
        match self {
            Self::AlterAliasCommand => 64,
            Self::AlterAliasCommandsList_Semicolons_AlterAliasCommand => 65,
        }
    }

    fn from_id(id: usize) -> Self {
        match id {
            64 => Self::AlterAliasCommand,
            _ => Self::AlterAliasCommandsList_Semicolons_AlterAliasCommand,
        }
    }
}

impl FromId for AlterAliasStmt {
    open spec fn has_production(id: usize) -> bool {
        id == 66
    }

    open spec fn production_id(self) -> usize {
        match self {
            Self::ALTER_ALIAS_NodeName_AlterAliasCommandsBlock => 66,
        }
    }

    fn from_id(_id: usize) -> Self {
        Self::ALTER_ALIAS_NodeName_AlterAliasCommandsBlock
    }
}

impl FromId for AlterAnnotationCommand {
    open spec fn has_production(id: usize) -> bool {
        67 <= id <= 70
    }

    open spec fn production_id(self) -> usize {
        match self {
            Self::AlterAnnotationValueStmt => 67,
            Self::CreateAnnotationValueStmt => 68,
            Self::DropAnnotationValueStmt => 69,
            Self::RenameStmt => 70,
        }
    }

    fn from_id(id: usize) -> Self {
        match id {
            67 => Self::AlterAnnotationValueStmt,
            68 => Self::CreateAnnotationValueStmt,
            69 => Self::DropAnnotationValueStmt,
            _ => Self::RenameStmt,
        }
    }
}

impl FromId for AlterAnnotationCommandsBlock {
    open spec fn has_production(id: usize) -> bool {
        71 <= id <= 74
    }

    open spec fn production_id(self) -> usize {
        match self {
            Self::AlterAnnotationCommand => 71,
            Self::LBRACE_AlterAnnotationCommandsList_OptSemicolons_RBRACE => 72,
            Self::LBRACE_OptSemicolons_RBRACE => 73,
            Self::LBRACE_Semicolons_AlterAnnotationCommandsList_OptSemicolons_RBRACE => 74,
        }
    }

    fn from_id(id: usize) -> Self {
        match id {
            71 => Self::AlterAnnotationCommand,
            72 => Self::LBRACE_AlterAnnotationCommandsList_OptSemicolons_RBRACE,
            73 => Self::LBRACE_OptSemicolons_RBRACE,
            _ => Self::LBRACE_Semicolons_AlterAnnotationCommandsList_OptSemicolons_RBRACE,
        }
    }
}

impl FromId for AlterAnnotationCommandsList {
    open spec fn has_production(id: usize) -> bool {
        75 <= id <= 76
    }

    open spec fn production_id(self) -> usize {
        match self {
            Self::AlterAnnotationCommand => 75,
            Self::AlterAnnotationCommandsList_Semicolons_AlterAnnotationCommand => 76,
        }
    }

    fn from_id(id: usize) -> Self {
        match id {
            75 => Self::AlterAnnotationCommand,
            _ => Self::AlterAnnotationCommandsList_Semicolons_AlterAnnotationCommand,
        }
    }
}

impl FromId for AlterAnnotationStmt {
    open spec fn has_production(id: usize) -> bool {
        id == 77
    }

    open spec fn production_id(self) -> usize {
        match self {
            Self::ALTER_ABSTRACT_ANNOTATION_NodeName_AlterAnnotationCommandsBlock => 77,
        }
    }

    fn from_id(_id: usize) -> Self {
        Self::ALTER_ABSTRACT_ANNOTATION_NodeName_AlterAnnotationCommandsBlock
    }
}

impl FromId for AlterAnnotationValueStmt {
    open spec fn has_production(id: usize) -> bool {
        78 <= id <= 79
    }

    open spec fn production_id(self) -> usize {
        match self {
            Self::ALTER_ANNOTATION_NodeName_ASSIGN_GenExpr => 78,
            Self::ALTER_ANNOTATION_NodeName_DROP_OWNED => 79,
        }
    }

    fn from_id(id: usize) -> Self {
        match id {
            78 => Self::ALTER_ANNOTATION_NodeName_ASSIGN_GenExpr,
            _ => Self::ALTER_ANNOTATION_NodeName_DROP_OWNED,
        }
    }
}

impl FromId for AlterBranchCommand {
    open spec fn has_production(id: usize) -> bool {
        id == 80
    }

    open spec fn production_id(self) -> usize {
        match self {
            Self::RenameStmt => 80,
        }
    }

    fn from_id(_id: usize) -> Self {
        Self::RenameStmt
    }
}

impl FromId for AlterBranchCommandsBlock {
    open spec fn has_production(id: usize) -> bool {
        81 <= id <= 84
    }

    open spec fn production_id(self) -> usize {
        match self {
            Self::AlterBranchCommand => 81,
            Self::LBRACE_AlterBranchCommandsList_OptSemicolons_RBRACE => 82,
            Self::LBRACE_OptSemicolons_RBRACE => 83,
            Self::LBRACE_Semicolons_AlterBranchCommandsList_OptSemicolons_RBRACE => 84,
        }
    }

    fn from_id(id: usize) -> Self {
        match id {
            81 => Self::AlterBranchCommand,
            82 => Self::LBRACE_AlterBranchCommandsList_OptSemicolons_RBRACE,
            83 => Self::LBRACE_OptSemicolons_RBRACE,
            _ => Self::LBRACE_Semicolons_AlterBranchCommandsList_OptSemicolons_RBRACE,
        }
    }
}

impl FromId for AlterBranchCommandsList {
    open spec fn has_production(id: usize) -> bool {
        85 <= id <= 86
    }

    open spec fn production_id(self) -> usize {
        match self {
            Self::AlterBranchCommand => 85,
            Self::AlterBranchCommandsList_Semicolons_AlterBranchCommand => 86,
        }
    }

    fn from_id(id: usize) -> Self {
        match id {
            85 => Self::AlterBranchCommand,
            _ => Self::AlterBranchCommandsList_Semicolons_AlterBranchCommand,
        }
    }
}

impl FromId for AlterBranchStmt {
    open spec fn has_production(id: usize) -> bool {
        id == 87
    }

    open spec fn production_id(self) -> usize {
        match self {
            Self::ALTER_BRANCH_DatabaseName_BranchOptions_AlterBranchCommandsBlock => 87,
        }
    }

    fn from_id(_id: usize) -> Self {
        Self::ALTER_BRANCH_DatabaseName_BranchOptions_AlterBranchCommandsBlock
    }
}

impl FromId for AlterCastCommand {
    open spec fn has_production(id: usize) -> bool {
        88 <= id <= 92
    }

    open spec fn production_id(self) -> usize {
        match self {
            Self::AlterAnnotationValueStmt => 88,
            Self::CreateAnnotationValueStmt => 89,
            Self::DropAnnotationValueStmt => 90,
            Self::ResetFieldStmt => 91,
            Self::SetFieldStmt => 92,
        }
    }

    fn from_id(id: usize) -> Self {
        match id {
            88 => Self::AlterAnnotationValueStmt,
            89 => Self::CreateAnnotationValueStmt,
            90 => Self::DropAnnotationValueStmt,
            91 => Self::ResetFieldStmt,
            _ => Self::SetFieldStmt,
        }
    }
}

impl FromId for AlterCastCommandsBlock {
    open spec fn has_production(id: usize) -> bool {
        93 <= id <= 96
    }

    open spec fn production_id(self) -> usize {
        match self {
            Self::AlterCastCommand => 93,
            Self::LBRACE_AlterCastCommandsList_OptSemicolons_RBRACE => 94,
            Self::LBRACE_OptSemicolons_RBRACE => 95,
            Self::LBRACE_Semicolons_AlterCastCommandsList_OptSemicolons_RBRACE => 96,
        }
    }

    fn from_id(id: usize) -> Self {
        match id {
            93 => Self::AlterCastCommand,
            94 => Self::LBRACE_AlterCastCommandsList_OptSemicolons_RBRACE,
            95 => Self::LBRACE_OptSemicolons_RBRACE,
            _ => Self::LBRACE_Semicolons_AlterCastCommandsList_OptSemicolons_RBRACE,
        }
    }
}

impl FromId for AlterCastCommandsList {
    open spec fn has_production(id: usize) -> bool {
        97 <= id <= 98
    }

    open spec fn production_id(self) -> usize {
        match self {
            Self::AlterCastCommand => 97,
            Self::AlterCastCommandsList_Semicolons_AlterCastCommand => 98,
        }
    }

    fn from_id(id: usize) -> Self {
        match id {
            97 => Self::AlterCastCommand,
            _ => Self::AlterCastCommandsList_Semicolons_AlterCastCommand,
        }
    }
}

impl FromId for AlterCastStmt {
    open spec fn has_production(id: usize) -> bool {
        id == 99
    }

    open spec fn production_id(self) -> usize {
        match self {
            Self::ALTER_CAST_FROM_TypeName_TO_TypeName_AlterCastCommandsBlock => 99,
        }
    }

    fn from_id(_id: usize) -> Self {
        Self::ALTER_CAST_FROM_TypeName_TO_TypeName_AlterCastCommandsBlock
    }
}

impl FromId for AlterCommand {
    open spec fn has_production(id: usize) -> bool {
        100 <= id <= 106
    }

    open spec fn production_id(self) -> usize {
        match self {
            Self::AlterAnnotationValueStmt => 100,
            Self::CreateAnnotationValueStmt => 101,
            Self::DropAnnotationValueStmt => 102,
            Self::RenameStmt => 103,
            Self::ResetFieldStmt => 104,
            Self::SetFieldStmt => 105,
            Self::UsingStmt => 106,
        }
    }

    fn from_id(id: usize) -> Self {
        match id {
            100 => Self::AlterAnnotationValueStmt,
            101 => Self::CreateAnnotationValueStmt,
            102 => Self::DropAnnotationValueStmt,
            103 => Self::RenameStmt,
            104 => Self::ResetFieldStmt,
            105 => Self::SetFieldStmt,
            _ => Self::UsingStmt,
        }
    }
}

impl FromId for AlterCommandsBlock {
    open spec fn has_production(id: usize) -> bool {
        107 <= id <= 110
    }

    open spec fn production_id(self) -> usize {
        match self {
            Self::AlterCommand => 107,
            Self::LBRACE_AlterCommandsList_OptSemicolons_RBRACE => 108,
            Self::LBRACE_OptSemicolons_RBRACE => 109,
            Self::LBRACE_Semicolons_AlterCommandsList_OptSemicolons_RBRACE => 110,
        }
    }

    fn from_id(id: usize) -> Self {
        match id {
            107 => Self::AlterCommand,
            108 => Self::LBRACE_AlterCommandsList_OptSemicolons_RBRACE,
            109 => Self::LBRACE_OptSemicolons_RBRACE,
            _ => Self::LBRACE_Semicolons_AlterCommandsList_OptSemicolons_RBRACE,
        }
    }
}

impl FromId for AlterCommandsList {
    open spec fn has_production(id: usize) -> bool {
        111 <= id <= 112
    }

    open spec fn production_id(self) -> usize {
        match self {
            Self::AlterCommand => 111,
            Self::AlterCommandsList_Semicolons_AlterCommand => 112,
        }
    }

    fn from_id(id: usize) -> Self {
        match id {
            111 => Self::AlterCommand,
            _ => Self::AlterCommandsList_Semicolons_AlterCommand,
        }
    }
}

impl FromId for AlterConcreteConstraintCommand {
    open spec fn has_production(id: usize) -> bool {
        113 <= id <= 120
    }

    open spec fn production_id(self) -> usize {
        match self {
            Self::AlterAbstract => 113,
            Self::AlterAnnotationValueStmt => 114,
            Self::AlterOwnedStmt => 115,
            Self::CreateAnnotationValueStmt => 116,
            Self::DropAnnotationValueStmt => 117,
            Self::ResetFieldStmt => 118,
            Self::SetDelegatedStmt => 119,
            Self::SetFieldStmt => 120,
        }
    }

    fn from_id(id: usize) -> Self {
        match id {
            113 => Self::AlterAbstract,
            114 => Self::AlterAnnotationValueStmt,
            115 => Self::AlterOwnedStmt,
            116 => Self::CreateAnnotationValueStmt,
            117 => Self::DropAnnotationValueStmt,
            118 => Self::ResetFieldStmt,
            119 => Self::SetDelegatedStmt,
            _ => Self::SetFieldStmt,
        }
    }
}

impl FromId for AlterConcreteConstraintCommandsBlock {
    open spec fn has_production(id: usize) -> bool {
        121 <= id <= 124
    }

    open spec fn production_id(self) -> usize {
        match self {
            Self::AlterConcreteConstraintCommand => 121,
            Self::LBRACE_AlterConcreteConstraintCommandsList_OptSemicolons_RBRACE => 122,
            Self::LBRACE_OptSemicolons_RBRACE => 123,
            Self::LBRACE_Semicolons_AlterConcreteConstraintCommandsList_OptSemicolons_RBRACE => 124,
        }
    }

    fn from_id(id: usize) -> Self {
        match id {
            121 => Self::AlterConcreteConstraintCommand,
            122 => Self::LBRACE_AlterConcreteConstraintCommandsList_OptSemicolons_RBRACE,
            123 => Self::LBRACE_OptSemicolons_RBRACE,
            _ => Self::LBRACE_Semicolons_AlterConcreteConstraintCommandsList_OptSemicolons_RBRACE,
        }
    }
}

impl FromId for AlterConcreteConstraintCommandsList {
    open spec fn has_production(id: usize) -> bool {
        125 <= id <= 126
    }

    open spec fn production_id(self) -> usize {
        match self {
            Self::AlterConcreteConstraintCommand => 125,
            Self::AlterConcreteConstraintCommandsList_Semicolons_AlterConcreteConstraintCommand => 126,
        }
    }

    fn from_id(id: usize) -> Self {
        match id {
            125 => Self::AlterConcreteConstraintCommand,
            _ => Self::AlterConcreteConstraintCommandsList_Semicolons_AlterConcreteConstraintCommand,
        }
    }
}

impl FromId for AlterConcreteConstraintStmt {
    open spec fn has_production(id: usize) -> bool {
        id == 127
    }

    open spec fn production_id(self) -> usize {
        match self {
            Self::ALTER_CONSTRAINT_NodeName_OptConcreteConstraintArgList_OptOnExpr_OptExceptExpr_AlterConcreteConstraintCommandsBlock => 127,
        }
    }

    fn from_id(_id: usize) -> Self {
        Self::ALTER_CONSTRAINT_NodeName_OptConcreteConstraintArgList_OptOnExpr_OptExceptExpr_AlterConcreteConstraintCommandsBlock
    }
}

impl FromId for AlterConcreteIndexCommand {
    open spec fn has_production(id: usize) -> bool {
        128 <= id <= 134
    }

    open spec fn production_id(self) -> usize {
        match self {
            Self::AlterAnnotationValueStmt => 128,
            Self::AlterDeferredStmt => 129,
            Self::AlterOwnedStmt => 130,
            Self::CreateAnnotationValueStmt => 131,
            Self::DropAnnotationValueStmt => 132,
            Self::ResetFieldStmt => 133,
            Self::SetFieldStmt => 134,
        }
    }

    fn from_id(id: usize) -> Self {
        match id {
            128 => Self::AlterAnnotationValueStmt,
            129 => Self::AlterDeferredStmt,
            130 => Self::AlterOwnedStmt,
            131 => Self::CreateAnnotationValueStmt,
            132 => Self::DropAnnotationValueStmt,
            133 => Self::ResetFieldStmt,
            _ => Self::SetFieldStmt,
        }
    }
}

impl FromId for AlterConcreteIndexCommandsBlock {
    open spec fn has_production(id: usize) -> bool {
        135 <= id <= 138
    }

    open spec fn production_id(self) -> usize {
        match self {
            Self::AlterConcreteIndexCommand => 135,
            Self::LBRACE_AlterConcreteIndexCommandsList_OptSemicolons_RBRACE => 136,
            Self::LBRACE_OptSemicolons_RBRACE => 137,
            Self::LBRACE_Semicolons_AlterConcreteIndexCommandsList_OptSemicolons_RBRACE => 138,
        }
    }

    fn from_id(id: usize) -> Self {
        match id {
            135 => Self::AlterConcreteIndexCommand,
            136 => Self::LBRACE_AlterConcreteIndexCommandsList_OptSemicolons_RBRACE,
            137 => Self::LBRACE_OptSemicolons_RBRACE,
            _ => Self::LBRACE_Semicolons_AlterConcreteIndexCommandsList_OptSemicolons_RBRACE,
        }
    }
}

impl FromId for AlterConcreteIndexCommandsList {
    open spec fn has_production(id: usize) -> bool {
        139 <= id <= 140
    }

    open spec fn production_id(self) -> usize {
        match self {
            Self::AlterConcreteIndexCommand => 139,
            Self::AlterConcreteIndexCommandsList_Semicolons_AlterConcreteIndexCommand => 140,
        }
    }

    fn from_id(id: usize) -> Self {
        match id {
            139 => Self::AlterConcreteIndexCommand,
            _ => Self::AlterConcreteIndexCommandsList_Semicolons_AlterConcreteIndexCommand,
        }
    }
}

impl FromId for AlterConcreteIndexStmt {
    open spec fn has_production(id: usize) -> bool {
        141 <= id <= 142
    }

    open spec fn production_id(self) -> usize {
        match self {
            Self::ALTER_INDEX_OnExpr_OptExceptExpr_AlterConcreteIndexCommandsBlock => 141,
            Self::ALTER_INDEX_NodeName_OptIndexExtArgList_OnExpr_OptExceptExpr_AlterConcreteIndexCommandsBlock => 142,
        }
    }

    fn from_id(id: usize) -> Self {
        match id {
            141 => Self::ALTER_INDEX_OnExpr_OptExceptExpr_AlterConcreteIndexCommandsBlock,
            _ => Self::ALTER_INDEX_NodeName_OptIndexExtArgList_OnExpr_OptExceptExpr_AlterConcreteIndexCommandsBlock,
        }
    }
}

impl FromId for AlterConcreteLinkCommand {
    open spec fn has_production(id: usize) -> bool {
        143 <= id <= 170
    }

    open spec fn production_id(self) -> usize {
        match self {
            Self::AlterAnnotationValueStmt => 143,
            Self::AlterConcreteConstraintStmt => 144,
            Self::AlterConcreteIndexStmt => 145,
            Self::AlterConcretePropertyStmt => 146,
            Self::AlterOwnedStmt => 147,
            Self::AlterRewriteStmt => 148,
            Self::AlterSimpleExtending => 149,
            Self::CreateAnnotationValueStmt => 150,
            Self::CreateConcreteConstraintStmt => 151,
            Self::CreateConcreteIndexStmt => 152,
            Self::CreateConcretePropertyStmt => 153,
            Self::CreateRewriteStmt => 154,
            Self::DropAnnotationValueStmt => 155,
            Self::DropConcreteConstraintStmt => 156,
            Self::DropConcreteIndexStmt => 157,
            Self::DropConcretePropertyStmt => 158,
            Self::DropRewriteStmt => 159,
            Self::OnSourceDeleteResetStmt => 160,
            Self::OnSourceDeleteStmt => 161,
            Self::OnTargetDeleteResetStmt => 162,
            Self::OnTargetDeleteStmt => 163,
            Self::RenameStmt => 164,
            Self::ResetFieldStmt => 165,
            Self::SetCardinalityStmt => 166,
            Self::SetFieldStmt => 167,
            Self::SetPointerTypeStmt => 168,
            Self::SetRequiredStmt => 169,
            Self::UsingStmt => 170,
        }
    }

    fn from_id(id: usize) -> Self {
        match id {
            143 => Self::AlterAnnotationValueStmt,
            144 => Self::AlterConcreteConstraintStmt,
            145 => Self::AlterConcreteIndexStmt,
            146 => Self::AlterConcretePropertyStmt,
            147 => Self::AlterOwnedStmt,
            148 => Self::AlterRewriteStmt,
            149 => Self::AlterSimpleExtending,
            150 => Self::CreateAnnotationValueStmt,
            151 => Self::CreateConcreteConstraintStmt,
            152 => Self::CreateConcreteIndexStmt,
            153 => Self::CreateConcretePropertyStmt,
            154 => Self::CreateRewriteStmt,
            155 => Self::DropAnnotationValueStmt,
            156 => Self::DropConcreteConstraintStmt,
            157 => Self::DropConcreteIndexStmt,
            158 => Self::DropConcretePropertyStmt,
            159 => Self::DropRewriteStmt,
            160 => Self::OnSourceDeleteResetStmt,
            161 => Self::OnSourceDeleteStmt,
            162 => Self::OnTargetDeleteResetStmt,
            163 => Self::OnTargetDeleteStmt,
            164 => Self::RenameStmt,
            165 => Self::ResetFieldStmt,
            166 => Self::SetCardinalityStmt,
            167 => Self::SetFieldStmt,
            168 => Self::SetPointerTypeStmt,
            169 => Self::SetRequiredStmt,
            _ => Self::UsingStmt,
        }
    }
}

impl FromId for AlterConcreteLinkCommandsBlock {
    open spec fn has_production(id: usize) -> bool {
        171 <= id <= 174
    }

    open spec fn production_id(self) -> usize {
        match self {
            Self::AlterConcreteLinkCommand => 171,
            Self::LBRACE_AlterConcreteLinkCommandsList_OptSemicolons_RBRACE => 172,
            Self::LBRACE_OptSemicolons_RBRACE => 173,
            Self::LBRACE_Semicolons_AlterConcreteLinkCommandsList_OptSemicolons_RBRACE => 174,
        }
    }

    fn from_id(id: usize) -> Self {
        match id {
            171 => Self::AlterConcreteLinkCommand,
            172 => Self::LBRACE_AlterConcreteLinkCommandsList_OptSemicolons_RBRACE,
            173 => Self::LBRACE_OptSemicolons_RBRACE,
            _ => Self::LBRACE_Semicolons_AlterConcreteLinkCommandsList_OptSemicolons_RBRACE,
        }
    }
}

impl FromId for AlterConcreteLinkCommandsList {
    open spec fn has_production(id: usize) -> bool {
        175 <= id <= 176
    }

    open spec fn production_id(self) -> usize {
        match self {
            Self::AlterConcreteLinkCommand => 175,
            Self::AlterConcreteLinkCommandsList_Semicolons_AlterConcreteLinkCommand => 176,
        }
    }

    fn from_id(id: usize) -> Self {
        match id {
            175 => Self::AlterConcreteLinkCommand,
            _ => Self::AlterConcreteLinkCommandsList_Semicolons_AlterConcreteLinkCommand,
        }
    }
}

impl FromId for AlterConcreteLinkStmt {
    open spec fn has_production(id: usize) -> bool {
        id == 177
    }

    open spec fn production_id(self) -> usize {
        match self {
            Self::ALTER_LINK_UnqualifiedPointerName_AlterConcreteLinkCommandsBlock => 177,
        }
    }

    fn from_id(_id: usize) -> Self {
        Self::ALTER_LINK_UnqualifiedPointerName_AlterConcreteLinkCommandsBlock
    }
}

impl FromId for AlterConcretePropertyCommand {
    open spec fn has_production(id: usize) -> bool {
        178 <= id <= 195
    }

    open spec fn production_id(self) -> usize {
        match self {
            Self::AlterAnnotationValueStmt => 178,
            Self::AlterConcreteConstraintStmt => 179,
            Self::AlterOwnedStmt => 180,
            Self::AlterRewriteStmt => 181,
            Self::AlterSimpleExtending => 182,
            Self::CreateAnnotationValueStmt => 183,
            Self::CreateConcreteConstraintStmt => 184,
            Self::CreateRewriteStmt => 185,
            Self::DropAnnotationValueStmt => 186,
            Self::DropConcreteConstraintStmt => 187,
            Self::DropRewriteStmt => 188,
            Self::RenameStmt => 189,
            Self::ResetFieldStmt => 190,
            Self::SetCardinalityStmt => 191,
            Self::SetFieldStmt => 192,
            Self::SetPointerTypeStmt => 193,
            Self::SetRequiredStmt => 194,
            Self::UsingStmt => 195,
        }
    }

    fn from_id(id: usize) -> Self {
        match id {
            178 => Self::AlterAnnotationValueStmt,
            179 => Self::AlterConcreteConstraintStmt,
            180 => Self::AlterOwnedStmt,
            181 => Self::AlterRewriteStmt,
            182 => Self::AlterSimpleExtending,
            183 => Self::CreateAnnotationValueStmt,
            184 => Self::CreateConcreteConstraintStmt,
            185 => Self::CreateRewriteStmt,
            186 => Self::DropAnnotationValueStmt,
            187 => Self::DropConcreteConstraintStmt,
            188 => Self::DropRewriteStmt,
            189 => Self::RenameStmt,
            190 => Self::ResetFieldStmt,
            191 => Self::SetCardinalityStmt,
            192 => Self::SetFieldStmt,
            193 => Self::SetPointerTypeStmt,
            194 => Self::SetRequiredStmt,
            _ => Self::UsingStmt,
        }
    }
}

impl FromId for AlterConcretePropertyCommandsBlock {
    open spec fn has_production(id: usize) -> bool {
        196 <= id <= 199
    }

    open spec fn production_id(self) -> usize {
        match self {
            Self::AlterConcretePropertyCommand => 196,
            Self::LBRACE_AlterConcretePropertyCommandsList_OptSemicolons_RBRACE => 197,
            Self::LBRACE_OptSemicolons_RBRACE => 198,
            Self::LBRACE_Semicolons_AlterConcretePropertyCommandsList_OptSemicolons_RBRACE => 199,
        }
    }

    fn from_id(id: usize) -> Self {
        match id {
            196 => Self::AlterConcretePropertyCommand,
            197 => Self::LBRACE_AlterConcretePropertyCommandsList_OptSemicolons_RBRACE,
            198 => Self::LBRACE_OptSemicolons_RBRACE,
            _ => Self::LBRACE_Semicolons_AlterConcretePropertyCommandsList_OptSemicolons_RBRACE,
        }
    }
}

impl FromId for AlterConcretePropertyCommandsList {
    open spec fn has_production(id: usize) -> bool {
        200 <= id <= 201
    }

    open spec fn production_id(self) -> usize {
        match self {
            Self::AlterConcretePropertyCommand => 200,
            Self::AlterConcretePropertyCommandsList_Semicolons_AlterConcretePropertyCommand => 201,
        }
    }

    fn from_id(id: usize) -> Self {
        match id {
            200 => Self::AlterConcretePropertyCommand,
            _ => Self::AlterConcretePropertyCommandsList_Semicolons_AlterConcretePropertyCommand,
        }
    }
}

impl FromId for AlterConcretePropertyStmt {
    open spec fn has_production(id: usize) -> bool {
        id == 202
    }

    open spec fn production_id(self) -> usize {
        match self {
            Self::ALTER_PROPERTY_UnqualifiedPointerName_AlterConcretePropertyCommandsBlock => 202,
        }
    }

    fn from_id(_id: usize) -> Self {
        Self::ALTER_PROPERTY_UnqualifiedPointerName_AlterConcretePropertyCommandsBlock
    }
}

impl FromId for AlterConstraintStmt {
    open spec fn has_production(id: usize) -> bool {
        id == 203
    }

    open spec fn production_id(self) -> usize {
        match self {
            Self::ALTER_ABSTRACT_CONSTRAINT_NodeName_AlterCommandsBlock => 203,
        }
    }

    fn from_id(_id: usize) -> Self {
        Self::ALTER_ABSTRACT_CONSTRAINT_NodeName_AlterCommandsBlock
    }
}

impl FromId for AlterCurrentMigrationStmt {
    open spec fn has_production(id: usize) -> bool {
        id == 204
    }

    open spec fn production_id(self) -> usize {
        match self {
            Self::ALTER_CURRENT_MIGRATION_REJECT_PROPOSED => 204,
        }
    }

    fn from_id(_id: usize) -> Self {
        Self::ALTER_CURRENT_MIGRATION_REJECT_PROPOSED
    }
}

impl FromId for AlterDatabaseCommand {
    open spec fn has_production(id: usize) -> bool {
        id == 205
    }

    open spec fn production_id(self) -> usize {
        match self {
            Self::RenameStmt => 205,
        }
    }

    fn from_id(_id: usize) -> Self {
        Self::RenameStmt
    }
}

impl FromId for AlterDatabaseCommandsBlock {
    open spec fn has_production(id: usize) -> bool {
        206 <= id <= 209
    }

    open spec fn production_id(self) -> usize {
        match self {
            Self::AlterDatabaseCommand => 206,
            Self::LBRACE_AlterDatabaseCommandsList_OptSemicolons_RBRACE => 207,
            Self::LBRACE_OptSemicolons_RBRACE => 208,
            Self::LBRACE_Semicolons_AlterDatabaseCommandsList_OptSemicolons_RBRACE => 209,
        }
    }

    fn from_id(id: usize) -> Self {
        match id {
            206 => Self::AlterDatabaseCommand,
            207 => Self::LBRACE_AlterDatabaseCommandsList_OptSemicolons_RBRACE,
            208 => Self::LBRACE_OptSemicolons_RBRACE,
            _ => Self::LBRACE_Semicolons_AlterDatabaseCommandsList_OptSemicolons_RBRACE,
        }
    }
}

impl FromId for AlterDatabaseCommandsList {
    open spec fn has_production(id: usize) -> bool {
        210 <= id <= 211
    }

    open spec fn production_id(self) -> usize {
        match self {
            Self::AlterDatabaseCommand => 210,
            Self::AlterDatabaseCommandsList_Semicolons_AlterDatabaseCommand => 211,
        }
    }

    fn from_id(id: usize) -> Self {
        match id {
            210 => Self::AlterDatabaseCommand,
            _ => Self::AlterDatabaseCommandsList_Semicolons_AlterDatabaseCommand,
        }
    }
}

impl FromId for AlterDatabaseStmt {
    open spec fn has_production(id: usize) -> bool {
        id == 212
    }

    open spec fn production_id(self) -> usize {
        match self {
            Self::ALTER_DATABASE_DatabaseName_AlterDatabaseCommandsBlock => 212,
        }
    }

    fn from_id(_id: usize) -> Self {
        Self::ALTER_DATABASE_DatabaseName_AlterDatabaseCommandsBlock
    }
}

impl FromId for AlterDeferredStmt {
    open spec fn has_production(id: usize) -> bool {
        213 <= id <= 214
    }

    open spec fn production_id(self) -> usize {
        match self {
            Self::DROP_DEFERRED => 213,
            Self::SET_DEFERRED => 214,
        }
    }

    fn from_id(id: usize) -> Self {
        match id {
            213 => Self::DROP_DEFERRED,
            _ => Self::SET_DEFERRED,
        }
    }
}

impl FromId for AlterExtending {
    open spec fn has_production(id: usize) -> bool {
        215 <= id <= 217
    }

    open spec fn production_id(self) -> usize {
        match self {
            Self::AlterAbstract => 215,
            Self::DROP_EXTENDING_TypeNameList => 216,
            Self::EXTENDING_TypeNameList_OptPosition => 217,
        }
    }

    fn from_id(id: usize) -> Self {
        match id {
            215 => Self::AlterAbstract,
            216 => Self::DROP_EXTENDING_TypeNameList,
            _ => Self::EXTENDING_TypeNameList_OptPosition,
        }
    }
}

impl FromId for AlterExtensionStmt {
    open spec fn has_production(id: usize) -> bool {
        id == 218
    }

    open spec fn production_id(self) -> usize {
        match self {
            Self::ALTER_EXTENSION_ShortNodeName_TO_ExtensionVersion => 218,
        }
    }

    fn from_id(_id: usize) -> Self {
        Self::ALTER_EXTENSION_ShortNodeName_TO_ExtensionVersion
    }
}

impl FromId for AlterFunctionCommand {
    open spec fn has_production(id: usize) -> bool {
        219 <= id <= 225
    }

    open spec fn production_id(self) -> usize {
        match self {
            Self::AlterAnnotationValueStmt => 219,
            Self::CreateAnnotationValueStmt => 220,
            Self::DropAnnotationValueStmt => 221,
            Self::FromFunction => 222,
            Self::RenameStmt => 223,
            Self::ResetFieldStmt => 224,
            Self::SetFieldStmt => 225,
        }
    }

    fn from_id(id: usize) -> Self {
        match id {
            219 => Self::AlterAnnotationValueStmt,
            220 => Self::CreateAnnotationValueStmt,
            221 => Self::DropAnnotationValueStmt,
            222 => Self::FromFunction,
            223 => Self::RenameStmt,
            224 => Self::ResetFieldStmt,
            _ => Self::SetFieldStmt,
        }
    }
}

impl FromId for AlterFunctionCommandsBlock {
    open spec fn has_production(id: usize) -> bool {
        226 <= id <= 229
    }

    open spec fn production_id(self) -> usize {
        match self {
            Self::AlterFunctionCommand => 226,
            Self::LBRACE_AlterFunctionCommandsList_OptSemicolons_RBRACE => 227,
            Self::LBRACE_OptSemicolons_RBRACE => 228,
            Self::LBRACE_Semicolons_AlterFunctionCommandsList_OptSemicolons_RBRACE => 229,
        }
    }

    fn from_id(id: usize) -> Self {
        match id {
            226 => Self::AlterFunctionCommand,
            227 => Self::LBRACE_AlterFunctionCommandsList_OptSemicolons_RBRACE,
            228 => Self::LBRACE_OptSemicolons_RBRACE,
            _ => Self::LBRACE_Semicolons_AlterFunctionCommandsList_OptSemicolons_RBRACE,
        }
    }
}

impl FromId for AlterFunctionCommandsList {
    open spec fn has_production(id: usize) -> bool {
        230 <= id <= 231
    }

    open spec fn production_id(self) -> usize {
        match self {
            Self::AlterFunctionCommand => 230,
            Self::AlterFunctionCommandsList_Semicolons_AlterFunctionCommand => 231,
        }
    }

    fn from_id(id: usize) -> Self {
        match id {
            230 => Self::AlterFunctionCommand,
            _ => Self::AlterFunctionCommandsList_Semicolons_AlterFunctionCommand,
        }
    }
}

impl FromId for AlterFunctionStmt {
    open spec fn has_production(id: usize) -> bool {
        id == 232
    }

    open spec fn production_id(self) -> usize {
        match self {
            Self::ALTER_FUNCTION_NodeName_CreateFunctionArgs_AlterFunctionCommandsBlock => 232,
        }
    }

    fn from_id(_id: usize) -> Self {
        Self::ALTER_FUNCTION_NodeName_CreateFunctionArgs_AlterFunctionCommandsBlock
    }
}

impl FromId for AlterGlobalCommand {
    open spec fn has_production(id: usize) -> bool {
        233 <= id <= 242
    }

    open spec fn production_id(self) -> usize {
        match self {
            Self::AlterAnnotationValueStmt => 233,
            Self::CreateAnnotationValueStmt => 234,
            Self::DropAnnotationValueStmt => 235,
            Self::RenameStmt => 236,
            Self::ResetFieldStmt => 237,
            Self::SetCardinalityStmt => 238,
            Self::SetFieldStmt => 239,
            Self::SetGlobalTypeStmt => 240,
            Self::SetRequiredStmt => 241,
            Self::UsingStmt => 242,
        }
    }

    fn from_id(id: usize) -> Self {
        match id {
            233 => Self::AlterAnnotationValueStmt,
            234 => Self::CreateAnnotationValueStmt,
            235 => Self::DropAnnotationValueStmt,
            236 => Self::RenameStmt,
            237 => Self::ResetFieldStmt,
            238 => Self::SetCardinalityStmt,
            239 => Self::SetFieldStmt,
            240 => Self::SetGlobalTypeStmt,
            241 => Self::SetRequiredStmt,
            _ => Self::UsingStmt,
        }
    }
}

impl FromId for AlterGlobalCommandsBlock {
    open spec fn has_production(id: usize) -> bool {
        243 <= id <= 246
    }

    open spec fn production_id(self) -> usize {
        match self {
            Self::AlterGlobalCommand => 243,
            Self::LBRACE_AlterGlobalCommandsList_OptSemicolons_RBRACE => 244,
            Self::LBRACE_OptSemicolons_RBRACE => 245,
            Self::LBRACE_Semicolons_AlterGlobalCommandsList_OptSemicolons_RBRACE => 246,
        }
    }

    fn from_id(id: usize) -> Self {
        match id {
            243 => Self::AlterGlobalCommand,
            244 => Self::LBRACE_AlterGlobalCommandsList_OptSemicolons_RBRACE,
            245 => Self::LBRACE_OptSemicolons_RBRACE,
            _ => Self::LBRACE_Semicolons_AlterGlobalCommandsList_OptSemicolons_RBRACE,
        }
    }
}

impl FromId for AlterGlobalCommandsList {
    open spec fn has_production(id: usize) -> bool {
        247 <= id <= 248
    }

    open spec fn production_id(self) -> usize {
        match self {
            Self::AlterGlobalCommand => 247,
            Self::AlterGlobalCommandsList_Semicolons_AlterGlobalCommand => 248,
        }
    }

    fn from_id(id: usize) -> Self {
        match id {
            247 => Self::AlterGlobalCommand,
            _ => Self::AlterGlobalCommandsList_Semicolons_AlterGlobalCommand,
        }
    }
}

impl FromId for AlterGlobalStmt {
    open spec fn has_production(id: usize) -> bool {
        id == 249
    }

    open spec fn production_id(self) -> usize {
        match self {
            Self::ALTER_GLOBAL_NodeName_AlterGlobalCommandsBlock => 249,
        }
    }

    fn from_id(_id: usize) -> Self {
        Self::ALTER_GLOBAL_NodeName_AlterGlobalCommandsBlock
    }
}

impl FromId for AlterIndexCommand {
    open spec fn has_production(id: usize) -> bool {
        250 <= id <= 256
    }

    open spec fn production_id(self) -> usize {
        match self {
            Self::AlterAnnotationValueStmt => 250,
            Self::CreateAnnotationValueStmt => 251,
            Self::DropAnnotationValueStmt => 252,
            Self::RenameStmt => 253,
            Self::ResetFieldStmt => 254,
            Self::SetFieldStmt => 255,
            Self::UsingStmt => 256,
        }
    }

    fn from_id(id: usize) -> Self {
        match id {
            250 => Self::AlterAnnotationValueStmt,
            251 => Self::CreateAnnotationValueStmt,
            252 => Self::DropAnnotationValueStmt,
            253 => Self::RenameStmt,
            254 => Self::ResetFieldStmt,
            255 => Self::SetFieldStmt,
            _ => Self::UsingStmt,
        }
    }
}

impl FromId for AlterIndexCommandsBlock {
    open spec fn has_production(id: usize) -> bool {
        257 <= id <= 260
    }

    open spec fn production_id(self) -> usize {
        match self {
            Self::AlterIndexCommand => 257,
            Self::LBRACE_AlterIndexCommandsList_OptSemicolons_RBRACE => 258,
            Self::LBRACE_OptSemicolons_RBRACE => 259,
            Self::LBRACE_Semicolons_AlterIndexCommandsList_OptSemicolons_RBRACE => 260,
        }
    }

    fn from_id(id: usize) -> Self {
        match id {
            257 => Self::AlterIndexCommand,
            258 => Self::LBRACE_AlterIndexCommandsList_OptSemicolons_RBRACE,
            259 => Self::LBRACE_OptSemicolons_RBRACE,
            _ => Self::LBRACE_Semicolons_AlterIndexCommandsList_OptSemicolons_RBRACE,
        }
    }
}

impl FromId for AlterIndexCommandsList {
    open spec fn has_production(id: usize) -> bool {
        261 <= id <= 262
    }

    open spec fn production_id(self) -> usize {
        match self {
            Self::AlterIndexCommand => 261,
            Self::AlterIndexCommandsList_Semicolons_AlterIndexCommand => 262,
        }
    }

    fn from_id(id: usize) -> Self {
        match id {
            261 => Self::AlterIndexCommand,
            _ => Self::AlterIndexCommandsList_Semicolons_AlterIndexCommand,
        }
    }
}

impl FromId for AlterIndexStmt {
    open spec fn has_production(id: usize) -> bool {
        id == 263
    }

    open spec fn production_id(self) -> usize {
        match self {
            Self::ALTER_ABSTRACT_INDEX_NodeName_AlterIndexCommandsBlock => 263,
        }
    }

    fn from_id(_id: usize) -> Self {
        Self::ALTER_ABSTRACT_INDEX_NodeName_AlterIndexCommandsBlock
    }
}

impl FromId for AlterLinkCommand {
    open spec fn has_production(id: usize) -> bool {
        264 <= id <= 282
    }

    open spec fn production_id(self) -> usize {
        match self {
            Self::AlterAnnotationValueStmt => 264,
            Self::AlterConcreteConstraintStmt => 265,
            Self::AlterConcreteIndexStmt => 266,
            Self::AlterConcretePropertyStmt => 267,
            Self::AlterRewriteStmt => 268,
            Self::AlterSimpleExtending => 269,
            Self::CreateAnnotationValueStmt => 270,
            Self::CreateConcreteConstraintStmt => 271,
            Self::CreateConcreteIndexStmt => 272,
            Self::CreateConcretePropertyStmt => 273,
            Self::CreateRewriteStmt => 274,
            Self::DropAnnotationValueStmt => 275,
            Self::DropConcreteConstraintStmt => 276,
            Self::DropConcreteIndexStmt => 277,
            Self::DropConcretePropertyStmt => 278,
            Self::DropRewriteStmt => 279,
            Self::RenameStmt => 280,
            Self::ResetFieldStmt => 281,
            Self::SetFieldStmt => 282,
        }
    }

    fn from_id(id: usize) -> Self {
        match id {
            264 => Self::AlterAnnotationValueStmt,
            265 => Self::AlterConcreteConstraintStmt,
            266 => Self::AlterConcreteIndexStmt,
            267 => Self::AlterConcretePropertyStmt,
            268 => Self::AlterRewriteStmt,
            269 => Self::AlterSimpleExtending,
            270 => Self::CreateAnnotationValueStmt,
            271 => Self::CreateConcreteConstraintStmt,
            272 => Self::CreateConcreteIndexStmt,
            273 => Self::CreateConcretePropertyStmt,
            274 => Self::CreateRewriteStmt,
            275 => Self::DropAnnotationValueStmt,
            276 => Self::DropConcreteConstraintStmt,
            277 => Self::DropConcreteIndexStmt,
            278 => Self::DropConcretePropertyStmt,
            279 => Self::DropRewriteStmt,
            280 => Self::RenameStmt,
            281 => Self::ResetFieldStmt,
            _ => Self::SetFieldStmt,
        }
    }
}

impl FromId for AlterLinkCommandsBlock {
    open spec fn has_production(id: usize) -> bool {
        283 <= id <= 286
    }

    open spec fn production_id(self) -> usize {
        match self {
            Self::AlterLinkCommand => 283,
            Self::LBRACE_AlterLinkCommandsList_OptSemicolons_RBRACE => 284,
            Self::LBRACE_OptSemicolons_RBRACE => 285,
            Self::LBRACE_Semicolons_AlterLinkCommandsList_OptSemicolons_RBRACE => 286,
        }
    }

    fn from_id(id: usize) -> Self {
        match id {
            283 => Self::AlterLinkCommand,
            284 => Self::LBRACE_AlterLinkCommandsList_OptSemicolons_RBRACE,
            285 => Self::LBRACE_OptSemicolons_RBRACE,
            _ => Self::LBRACE_Semicolons_AlterLinkCommandsList_OptSemicolons_RBRACE,
        }
    }
}

impl FromId for AlterLinkCommandsList {
    open spec fn has_production(id: usize) -> bool {
        287 <= id <= 288
    }

    open spec fn production_id(self) -> usize {
        match self {
            Self::AlterLinkCommand => 287,
            Self::AlterLinkCommandsList_Semicolons_AlterLinkCommand => 288,
        }
    }

    fn from_id(id: usize) -> Self {
        match id {
            287 => Self::AlterLinkCommand,
            _ => Self::AlterLinkCommandsList_Semicolons_AlterLinkCommand,
        }
    }
}

impl FromId for AlterLinkStmt {
    open spec fn has_production(id: usize) -> bool {
        id == 289
    }

    open spec fn production_id(self) -> usize {
        match self {
            Self::ALTER_ABSTRACT_LINK_PtrNodeName_AlterLinkCommandsBlock => 289,
        }
    }

    fn from_id(_id: usize) -> Self {
        Self::ALTER_ABSTRACT_LINK_PtrNodeName_AlterLinkCommandsBlock
    }
}

impl FromId for AlterMigrationCommand {
    open spec fn has_production(id: usize) -> bool {
        290 <= id <= 291
    }

    open spec fn production_id(self) -> usize {
        match self {
            Self::ResetFieldStmt => 290,
            Self::SetFieldStmt => 291,
        }
    }

    fn from_id(id: usize) -> Self {
        match id {
            290 => Self::ResetFieldStmt,
            _ => Self::SetFieldStmt,
        }
    }
}

impl FromId for AlterMigrationCommandsBlock {
    open spec fn has_production(id: usize) -> bool {
        292 <= id <= 295
    }

    open spec fn production_id(self) -> usize {
        match self {
            Self::AlterMigrationCommand => 292,
            Self::LBRACE_AlterMigrationCommandsList_OptSemicolons_RBRACE => 293,
            Self::LBRACE_OptSemicolons_RBRACE => 294,
            Self::LBRACE_Semicolons_AlterMigrationCommandsList_OptSemicolons_RBRACE => 295,
        }
    }

    fn from_id(id: usize) -> Self {
        match id {
            292 => Self::AlterMigrationCommand,
            293 => Self::LBRACE_AlterMigrationCommandsList_OptSemicolons_RBRACE,
            294 => Self::LBRACE_OptSemicolons_RBRACE,
            _ => Self::LBRACE_Semicolons_AlterMigrationCommandsList_OptSemicolons_RBRACE,
        }
    }
}

impl FromId for AlterMigrationCommandsList {
    open spec fn has_production(id: usize) -> bool {
        296 <= id <= 297
    }

    open spec fn production_id(self) -> usize {
        match self {
            Self::AlterMigrationCommand => 296,
            Self::AlterMigrationCommandsList_Semicolons_AlterMigrationCommand => 297,
        }
    }

    fn from_id(id: usize) -> Self {
        match id {
            296 => Self::AlterMigrationCommand,
            _ => Self::AlterMigrationCommandsList_Semicolons_AlterMigrationCommand,
        }
    }
}

impl FromId for AlterMigrationStmt {
    open spec fn has_production(id: usize) -> bool {
        id == 298
    }

    open spec fn production_id(self) -> usize {
        match self {
            Self::ALTER_MIGRATION_NodeName_AlterMigrationCommandsBlock => 298,
        }
    }

    fn from_id(_id: usize) -> Self {
        Self::ALTER_MIGRATION_NodeName_AlterMigrationCommandsBlock
    }
}

impl FromId for AlterModuleStmt {
    open spec fn has_production(id: usize) -> bool {
        id == 299
    }

    open spec fn production_id(self) -> usize {
        match self {
            Self::ALTER_MODULE_ModuleName_AlterCommandsBlock => 299,
        }
    }

    fn from_id(_id: usize) -> Self {
        Self::ALTER_MODULE_ModuleName_AlterCommandsBlock
    }
}

impl FromId for AlterObjectTypeCommand {
    open spec fn has_production(id: usize) -> bool {
        300 <= id <= 324
    }

    open spec fn production_id(self) -> usize {
        match self {
            Self::AlterAccessPolicyStmt => 300,
            Self::AlterAnnotationValueStmt => 301,
            Self::AlterConcreteConstraintStmt => 302,
            Self::AlterConcreteIndexStmt => 303,
            Self::AlterConcreteLinkStmt => 304,
            Self::AlterConcretePropertyStmt => 305,
            Self::AlterSimpleExtending => 306,
            Self::AlterTriggerStmt => 307,
            Self::CreateAccessPolicyStmt => 308,
            Self::CreateAnnotationValueStmt => 309,
            Self::CreateConcreteConstraintStmt => 310,
            Self::CreateConcreteIndexStmt => 311,
            Self::CreateConcreteLinkStmt => 312,
            Self::CreateConcretePropertyStmt => 313,
            Self::CreateTriggerStmt => 314,
            Self::DropAccessPolicyStmt => 315,
            Self::DropAnnotationValueStmt => 316,
            Self::DropConcreteConstraintStmt => 317,
            Self::DropConcreteIndexStmt => 318,
            Self::DropConcreteLinkStmt => 319,
            Self::DropConcretePropertyStmt => 320,
            Self::DropTriggerStmt => 321,
            Self::RenameStmt => 322,
            Self::ResetFieldStmt => 323,
            Self::SetFieldStmt => 324,
        }
    }

    fn from_id(id: usize) -> Self {
        match id {
            300 => Self::AlterAccessPolicyStmt,
            301 => Self::AlterAnnotationValueStmt,
            302 => Self::AlterConcreteConstraintStmt,
            303 => Self::AlterConcreteIndexStmt,
            304 => Self::AlterConcreteLinkStmt,
            305 => Self::AlterConcretePropertyStmt,
            306 => Self::AlterSimpleExtending,
            307 => Self::AlterTriggerStmt,
            308 => Self::CreateAccessPolicyStmt,
            309 => Self::CreateAnnotationValueStmt,
            310 => Self::CreateConcreteConstraintStmt,
            311 => Self::CreateConcreteIndexStmt,
            312 => Self::CreateConcreteLinkStmt,
            313 => Self::CreateConcretePropertyStmt,
            314 => Self::CreateTriggerStmt,
            315 => Self::DropAccessPolicyStmt,
            316 => Self::DropAnnotationValueStmt,
            317 => Self::DropConcreteConstraintStmt,
            318 => Self::DropConcreteIndexStmt,
            319 => Self::DropConcreteLinkStmt,
            320 => Self::DropConcretePropertyStmt,
            321 => Self::DropTriggerStmt,
            322 => Self::RenameStmt,
            323 => Self::ResetFieldStmt,
            _ => Self::SetFieldStmt,
        }
    }
}

impl FromId for AlterObjectTypeCommandsBlock {
    open spec fn has_production(id: usize) -> bool {
        325 <= id <= 328
    }

    open spec fn production_id(self) -> usize {
        match self {
            Self::AlterObjectTypeCommand => 325,
            Self::LBRACE_AlterObjectTypeCommandsList_OptSemicolons_RBRACE => 326,
            Self::LBRACE_OptSemicolons_RBRACE => 327,
            Self::LBRACE_Semicolons_AlterObjectTypeCommandsList_OptSemicolons_RBRACE => 328,
        }
    }

    fn from_id(id: usize) -> Self {
        match id {
            325 => Self::AlterObjectTypeCommand,
            326 => Self::LBRACE_AlterObjectTypeCommandsList_OptSemicolons_RBRACE,
            327 => Self::LBRACE_OptSemicolons_RBRACE,
            _ => Self::LBRACE_Semicolons_AlterObjectTypeCommandsList_OptSemicolons_RBRACE,
        }
    }
}

impl FromId for AlterObjectTypeCommandsList {
    open spec fn has_production(id: usize) -> bool {
        329 <= id <= 330
    }

    open spec fn production_id(self) -> usize {
        match self {
            Self::AlterObjectTypeCommand => 329,
            Self::AlterObjectTypeCommandsList_Semicolons_AlterObjectTypeCommand => 330,
        }
    }

    fn from_id(id: usize) -> Self {
        match id {
            329 => Self::AlterObjectTypeCommand,
            _ => Self::AlterObjectTypeCommandsList_Semicolons_AlterObjectTypeCommand,
        }
    }
}

impl FromId for AlterObjectTypeStmt {
    open spec fn has_production(id: usize) -> bool {
        id == 331
    }

    open spec fn production_id(self) -> usize {
        match self {
            Self::ALTER_TYPE_NodeName_AlterObjectTypeCommandsBlock => 331,
        }
    }

    fn from_id(_id: usize) -> Self {
        Self::ALTER_TYPE_NodeName_AlterObjectTypeCommandsBlock
    }
}

impl FromId for AlterOperatorCommand {
    open spec fn has_production(id: usize) -> bool {
        332 <= id <= 336
    }

    open spec fn production_id(self) -> usize {
        match self {
            Self::AlterAnnotationValueStmt => 332,
            Self::CreateAnnotationValueStmt => 333,
            Self::DropAnnotationValueStmt => 334,
            Self::ResetFieldStmt => 335,
            Self::SetFieldStmt => 336,
        }
    }

    fn from_id(id: usize) -> Self {
        match id {
            332 => Self::AlterAnnotationValueStmt,
            333 => Self::CreateAnnotationValueStmt,
            334 => Self::DropAnnotationValueStmt,
            335 => Self::ResetFieldStmt,
            _ => Self::SetFieldStmt,
        }
    }
}

impl FromId for AlterOperatorCommandsBlock {
    open spec fn has_production(id: usize) -> bool {
        337 <= id <= 340
    }

    open spec fn production_id(self) -> usize {
        match self {
            Self::AlterOperatorCommand => 337,
            Self::LBRACE_AlterOperatorCommandsList_OptSemicolons_RBRACE => 338,
            Self::LBRACE_OptSemicolons_RBRACE => 339,
            Self::LBRACE_Semicolons_AlterOperatorCommandsList_OptSemicolons_RBRACE => 340,
        }
    }

    fn from_id(id: usize) -> Self {
        match id {
            337 => Self::AlterOperatorCommand,
            338 => Self::LBRACE_AlterOperatorCommandsList_OptSemicolons_RBRACE,
            339 => Self::LBRACE_OptSemicolons_RBRACE,
            _ => Self::LBRACE_Semicolons_AlterOperatorCommandsList_OptSemicolons_RBRACE,
        }
    }
}

impl FromId for AlterOperatorCommandsList {
    open spec fn has_production(id: usize) -> bool {
        341 <= id <= 342
    }

    open spec fn production_id(self) -> usize {
        match self {
            Self::AlterOperatorCommand => 341,
            Self::AlterOperatorCommandsList_Semicolons_AlterOperatorCommand => 342,
        }
    }

    fn from_id(id: usize) -> Self {
        match id {
            341 => Self::AlterOperatorCommand,
            _ => Self::AlterOperatorCommandsList_Semicolons_AlterOperatorCommand,
        }
    }
}

impl FromId for AlterOperatorStmt {
    open spec fn has_production(id: usize) -> bool {
        id == 343
    }

    open spec fn production_id(self) -> usize {
        match self {
            Self::ALTER_OperatorKind_OPERATOR_NodeName_CreateFunctionArgs_AlterOperatorCommandsBlock => 343,
        }
    }

    fn from_id(_id: usize) -> Self {
        Self::ALTER_OperatorKind_OPERATOR_NodeName_CreateFunctionArgs_AlterOperatorCommandsBlock
    }
}

impl FromId for AlterOwnedStmt {
    open spec fn has_production(id: usize) -> bool {
        344 <= id <= 345
    }

    open spec fn production_id(self) -> usize {
        match self {
            Self::DROP_OWNED => 344,
            Self::SET_OWNED => 345,
        }
    }

    fn from_id(id: usize) -> Self {
        match id {
            344 => Self::DROP_OWNED,
            _ => Self::SET_OWNED,
        }
    }
}

impl FromId for AlterPermissionCommand {
    open spec fn has_production(id: usize) -> bool {
        346 <= id <= 349
    }

    open spec fn production_id(self) -> usize {
        match self {
            Self::AlterAnnotationValueStmt => 346,
            Self::CreateAnnotationValueStmt => 347,
            Self::DropAnnotationValueStmt => 348,
            Self::RenameStmt => 349,
        }
    }

    fn from_id(id: usize) -> Self {
        match id {
            346 => Self::AlterAnnotationValueStmt,
            347 => Self::CreateAnnotationValueStmt,
            348 => Self::DropAnnotationValueStmt,
            _ => Self::RenameStmt,
        }
    }
}

impl FromId for AlterPermissionCommandsBlock {
    open spec fn has_production(id: usize) -> bool {
        350 <= id <= 353
    }

    open spec fn production_id(self) -> usize {
        match self {
            Self::AlterPermissionCommand => 350,
            Self::LBRACE_AlterPermissionCommandsList_OptSemicolons_RBRACE => 351,
            Self::LBRACE_OptSemicolons_RBRACE => 352,
            Self::LBRACE_Semicolons_AlterPermissionCommandsList_OptSemicolons_RBRACE => 353,
        }
    }

    fn from_id(id: usize) -> Self {
        match id {
            350 => Self::AlterPermissionCommand,
            351 => Self::LBRACE_AlterPermissionCommandsList_OptSemicolons_RBRACE,
            352 => Self::LBRACE_OptSemicolons_RBRACE,
            _ => Self::LBRACE_Semicolons_AlterPermissionCommandsList_OptSemicolons_RBRACE,
        }
    }
}

impl FromId for AlterPermissionCommandsList {
    open spec fn has_production(id: usize) -> bool {
        354 <= id <= 355
    }

    open spec fn production_id(self) -> usize {
        match self {
            Self::AlterPermissionCommand => 354,
            Self::AlterPermissionCommandsList_Semicolons_AlterPermissionCommand => 355,
        }
    }

    fn from_id(id: usize) -> Self {
        match id {
            354 => Self::AlterPermissionCommand,
            _ => Self::AlterPermissionCommandsList_Semicolons_AlterPermissionCommand,
        }
    }
}

impl FromId for AlterPermissionStmt {
    open spec fn has_production(id: usize) -> bool {
        id == 356
    }

    open spec fn production_id(self) -> usize {
        match self {
            Self::ALTER_PERMISSION_NodeName_AlterPermissionCommandsBlock => 356,
        }
    }

    fn from_id(_id: usize) -> Self {
        Self::ALTER_PERMISSION_NodeName_AlterPermissionCommandsBlock
    }
}

impl FromId for AlterPropertyCommand {
    open spec fn has_production(id: usize) -> bool {
        357 <= id <= 365
    }

    open spec fn production_id(self) -> usize {
        match self {
            Self::AlterAnnotationValueStmt => 357,
            Self::AlterRewriteStmt => 358,
            Self::CreateAnnotationValueStmt => 359,
            Self::CreateRewriteStmt => 360,
            Self::DropAnnotationValueStmt => 361,
            Self::DropRewriteStmt => 362,
            Self::RenameStmt => 363,
            Self::ResetFieldStmt => 364,
            Self::SetFieldStmt => 365,
        }
    }

    fn from_id(id: usize) -> Self {
        match id {
            357 => Self::AlterAnnotationValueStmt,
            358 => Self::AlterRewriteStmt,
            359 => Self::CreateAnnotationValueStmt,
            360 => Self::CreateRewriteStmt,
            361 => Self::DropAnnotationValueStmt,
            362 => Self::DropRewriteStmt,
            363 => Self::RenameStmt,
            364 => Self::ResetFieldStmt,
            _ => Self::SetFieldStmt,
        }
    }
}

impl FromId for AlterPropertyCommandsBlock {
    open spec fn has_production(id: usize) -> bool {
        366 <= id <= 369
    }

    open spec fn production_id(self) -> usize {
        match self {
            Self::AlterPropertyCommand => 366,
            Self::LBRACE_AlterPropertyCommandsList_OptSemicolons_RBRACE => 367,
            Self::LBRACE_OptSemicolons_RBRACE => 368,
            Self::LBRACE_Semicolons_AlterPropertyCommandsList_OptSemicolons_RBRACE => 369,
        }
    }

    fn from_id(id: usize) -> Self {
        match id {
            366 => Self::AlterPropertyCommand,
            367 => Self::LBRACE_AlterPropertyCommandsList_OptSemicolons_RBRACE,
            368 => Self::LBRACE_OptSemicolons_RBRACE,
            _ => Self::LBRACE_Semicolons_AlterPropertyCommandsList_OptSemicolons_RBRACE,
        }
    }
}

impl FromId for AlterPropertyCommandsList {
    open spec fn has_production(id: usize) -> bool {
        370 <= id <= 371
    }

    open spec fn production_id(self) -> usize {
        match self {
            Self::AlterPropertyCommand => 370,
            Self::AlterPropertyCommandsList_Semicolons_AlterPropertyCommand => 371,
        }
    }

    fn from_id(id: usize) -> Self {
        match id {
            370 => Self::AlterPropertyCommand,
            _ => Self::AlterPropertyCommandsList_Semicolons_AlterPropertyCommand,
        }
    }
}

impl FromId for AlterPropertyStmt {
    open spec fn has_production(id: usize) -> bool {
        id == 372
    }

    open spec fn production_id(self) -> usize {
        match self {
            Self::ALTER_ABSTRACT_PROPERTY_PtrNodeName_AlterPropertyCommandsBlock => 372,
        }
    }

    fn from_id(_id: usize) -> Self {
        Self::ALTER_ABSTRACT_PROPERTY_PtrNodeName_AlterPropertyCommandsBlock
    }
}

impl FromId for AlterRewriteCommand {
    open spec fn has_production(id: usize) -> bool {
        373 <= id <= 378
    }

    open spec fn production_id(self) -> usize {
        match self {
            Self::AlterAnnotationValueStmt => 373,
            Self::CreateAnnotationValueStmt => 374,
            Self::DropAnnotationValueStmt => 375,
            Self::ResetFieldStmt => 376,
            Self::SetFieldStmt => 377,
            Self::UsingStmt => 378,
        }
    }

    fn from_id(id: usize) -> Self {
        match id {
            373 => Self::AlterAnnotationValueStmt,
            374 => Self::CreateAnnotationValueStmt,
            375 => Self::DropAnnotationValueStmt,
            376 => Self::ResetFieldStmt,
            377 => Self::SetFieldStmt,
            _ => Self::UsingStmt,
        }
    }
}

impl FromId for AlterRewriteCommandsBlock {
    open spec fn has_production(id: usize) -> bool {
        379 <= id <= 382
    }

    open spec fn production_id(self) -> usize {
        match self {
            Self::AlterRewriteCommand => 379,
            Self::LBRACE_AlterRewriteCommandsList_OptSemicolons_RBRACE => 380,
            Self::LBRACE_OptSemicolons_RBRACE => 381,
            Self::LBRACE_Semicolons_AlterRewriteCommandsList_OptSemicolons_RBRACE => 382,
        }
    }

    fn from_id(id: usize) -> Self {
        match id {
            379 => Self::AlterRewriteCommand,
            380 => Self::LBRACE_AlterRewriteCommandsList_OptSemicolons_RBRACE,
            381 => Self::LBRACE_OptSemicolons_RBRACE,
            _ => Self::LBRACE_Semicolons_AlterRewriteCommandsList_OptSemicolons_RBRACE,
        }
    }
}

impl FromId for AlterRewriteCommandsList {
    open spec fn has_production(id: usize) -> bool {
        383 <= id <= 384
    }

    open spec fn production_id(self) -> usize {
        match self {
            Self::AlterRewriteCommand => 383,
            Self::AlterRewriteCommandsList_Semicolons_AlterRewriteCommand => 384,
        }
    }

    fn from_id(id: usize) -> Self {
        match id {
            383 => Self::AlterRewriteCommand,
            _ => Self::AlterRewriteCommandsList_Semicolons_AlterRewriteCommand,
        }
    }
}

impl FromId for AlterRewriteStmt {
    open spec fn has_production(id: usize) -> bool {
        id == 385
    }

    open spec fn production_id(self) -> usize {
        match self {
            Self::ALTER_REWRITE_RewriteKindList_AlterRewriteCommandsBlock => 385,
        }
    }

    fn from_id(_id: usize) -> Self {
        Self::ALTER_REWRITE_RewriteKindList_AlterRewriteCommandsBlock
    }
}

impl FromId for AlterRoleCommand {
    open spec fn has_production(id: usize) -> bool {
        386 <= id <= 389
    }

    open spec fn production_id(self) -> usize {
        match self {
            Self::AlterRoleExtending => 386,
            Self::RenameStmt => 387,
            Self::ResetFieldStmt => 388,
            Self::SetFieldStmt => 389,
        }
    }

    fn from_id(id: usize) -> Self {
        match id {
            386 => Self::AlterRoleExtending,
            387 => Self::RenameStmt,
            388 => Self::ResetFieldStmt,
            _ => Self::SetFieldStmt,
        }
    }
}

impl FromId for AlterRoleCommandsBlock {
    open spec fn has_production(id: usize) -> bool {
        390 <= id <= 393
    }

    open spec fn production_id(self) -> usize {
        match self {
            Self::AlterRoleCommand => 390,
            Self::LBRACE_AlterRoleCommandsList_OptSemicolons_RBRACE => 391,
            Self::LBRACE_OptSemicolons_RBRACE => 392,
            Self::LBRACE_Semicolons_AlterRoleCommandsList_OptSemicolons_RBRACE => 393,
        }
    }

    fn from_id(id: usize) -> Self {
        match id {
            390 => Self::AlterRoleCommand,
            391 => Self::LBRACE_AlterRoleCommandsList_OptSemicolons_RBRACE,
            392 => Self::LBRACE_OptSemicolons_RBRACE,
            _ => Self::LBRACE_Semicolons_AlterRoleCommandsList_OptSemicolons_RBRACE,
        }
    }
}

impl FromId for AlterRoleCommandsList {
    open spec fn has_production(id: usize) -> bool {
        394 <= id <= 395
    }

    open spec fn production_id(self) -> usize {
        match self {
            Self::AlterRoleCommand => 394,
            Self::AlterRoleCommandsList_Semicolons_AlterRoleCommand => 395,
        }
    }

    fn from_id(id: usize) -> Self {
        match id {
            394 => Self::AlterRoleCommand,
            _ => Self::AlterRoleCommandsList_Semicolons_AlterRoleCommand,
        }
    }
}

impl FromId for AlterRoleExtending {
    open spec fn has_production(id: usize) -> bool {
        396 <= id <= 397
    }

    open spec fn production_id(self) -> usize {
        match self {
            Self::DROP_EXTENDING_ShortTypeNameList => 396,
            Self::EXTENDING_ShortTypeNameList_OptPosition => 397,
        }
    }

    fn from_id(id: usize) -> Self {
        match id {
            396 => Self::DROP_EXTENDING_ShortTypeNameList,
            _ => Self::EXTENDING_ShortTypeNameList_OptPosition,
        }
    }
}

impl FromId for AlterRoleStmt {
    open spec fn has_production(id: usize) -> bool {
        id == 398
    }

    open spec fn production_id(self) -> usize {
        match self {
            Self::ALTER_ROLE_ShortNodeName_AlterRoleCommandsBlock => 398,
        }
    }

    fn from_id(_id: usize) -> Self {
        Self::ALTER_ROLE_ShortNodeName_AlterRoleCommandsBlock
    }
}

impl FromId for AlterScalarTypeCommand {
    open spec fn has_production(id: usize) -> bool {
        399 <= id <= 408
    }

    open spec fn production_id(self) -> usize {
        match self {
            Self::AlterAnnotationValueStmt => 399,
            Self::AlterConcreteConstraintStmt => 400,
            Self::AlterExtending => 401,
            Self::CreateAnnotationValueStmt => 402,
            Self::CreateConcreteConstraintStmt => 403,
            Self::DropAnnotationValueStmt => 404,
            Self::DropConcreteConstraintStmt => 405,
            Self::RenameStmt => 406,
            Self::ResetFieldStmt => 407,
            Self::SetFieldStmt => 408,
        }
    }

    fn from_id(id: usize) -> Self {
        match id {
            399 => Self::AlterAnnotationValueStmt,
            400 => Self::AlterConcreteConstraintStmt,
            401 => Self::AlterExtending,
            402 => Self::CreateAnnotationValueStmt,
            403 => Self::CreateConcreteConstraintStmt,
            404 => Self::DropAnnotationValueStmt,
            405 => Self::DropConcreteConstraintStmt,
            406 => Self::RenameStmt,
            407 => Self::ResetFieldStmt,
            _ => Self::SetFieldStmt,
        }
    }
}

impl FromId for AlterScalarTypeCommandsBlock {
    open spec fn has_production(id: usize) -> bool {
        409 <= id <= 412
    }

    open spec fn production_id(self) -> usize {
        match self {
            Self::AlterScalarTypeCommand => 409,
            Self::LBRACE_AlterScalarTypeCommandsList_OptSemicolons_RBRACE => 410,
            Self::LBRACE_OptSemicolons_RBRACE => 411,
            Self::LBRACE_Semicolons_AlterScalarTypeCommandsList_OptSemicolons_RBRACE => 412,
        }
    }

    fn from_id(id: usize) -> Self {
        match id {
            409 => Self::AlterScalarTypeCommand,
            410 => Self::LBRACE_AlterScalarTypeCommandsList_OptSemicolons_RBRACE,
            411 => Self::LBRACE_OptSemicolons_RBRACE,
            _ => Self::LBRACE_Semicolons_AlterScalarTypeCommandsList_OptSemicolons_RBRACE,
        }
    }
}

impl FromId for AlterScalarTypeCommandsList {
    open spec fn has_production(id: usize) -> bool {
        413 <= id <= 414
    }

    open spec fn production_id(self) -> usize {
        match self {
            Self::AlterScalarTypeCommand => 413,
            Self::AlterScalarTypeCommandsList_Semicolons_AlterScalarTypeCommand => 414,
        }
    }

    fn from_id(id: usize) -> Self {
        match id {
            413 => Self::AlterScalarTypeCommand,
            _ => Self::AlterScalarTypeCommandsList_Semicolons_AlterScalarTypeCommand,
        }
    }
}

impl FromId for AlterScalarTypeStmt {
    open spec fn has_production(id: usize) -> bool {
        id == 415
    }

    open spec fn production_id(self) -> usize {
        match self {
            Self::ALTER_SCALAR_TYPE_NodeName_AlterScalarTypeCommandsBlock => 415,
        }
    }

    fn from_id(_id: usize) -> Self {
        Self::ALTER_SCALAR_TYPE_NodeName_AlterScalarTypeCommandsBlock
    }
}

impl FromId for AlterSimpleExtending {
    open spec fn has_production(id: usize) -> bool {
        416 <= id <= 418
    }

    open spec fn production_id(self) -> usize {
        match self {
            Self::AlterAbstract => 416,
            Self::DROP_EXTENDING_SimpleTypeNameList => 417,
            Self::EXTENDING_SimpleTypeNameList_OptPosition => 418,
        }
    }

    fn from_id(id: usize) -> Self {
        match id {
            416 => Self::AlterAbstract,
            417 => Self::DROP_EXTENDING_SimpleTypeNameList,
            _ => Self::EXTENDING_SimpleTypeNameList_OptPosition,
        }
    }
}

impl FromId for AlterTriggerCommand {
    open spec fn has_production(id: usize) -> bool {
        419 <= id <= 426
    }

    open spec fn production_id(self) -> usize {
        match self {
            Self::AccessWhenStmt => 419,
            Self::AlterAnnotationValueStmt => 420,
            Self::CreateAnnotationValueStmt => 421,
            Self::DropAnnotationValueStmt => 422,
            Self::RenameStmt => 423,
            Self::ResetFieldStmt => 424,
            Self::SetFieldStmt => 425,
            Self::UsingStmt => 426,
        }
    }

    fn from_id(id: usize) -> Self {
        match id {
            419 => Self::AccessWhenStmt,
            420 => Self::AlterAnnotationValueStmt,
            421 => Self::CreateAnnotationValueStmt,
            422 => Self::DropAnnotationValueStmt,
            423 => Self::RenameStmt,
            424 => Self::ResetFieldStmt,
            425 => Self::SetFieldStmt,
            _ => Self::UsingStmt,
        }
    }
}

impl FromId for AlterTriggerCommandsBlock {
    open spec fn has_production(id: usize) -> bool {
        427 <= id <= 430
    }

    open spec fn production_id(self) -> usize {
        match self {
            Self::AlterTriggerCommand => 427,
            Self::LBRACE_AlterTriggerCommandsList_OptSemicolons_RBRACE => 428,
            Self::LBRACE_OptSemicolons_RBRACE => 429,
            Self::LBRACE_Semicolons_AlterTriggerCommandsList_OptSemicolons_RBRACE => 430,
        }
    }

    fn from_id(id: usize) -> Self {
        match id {
            427 => Self::AlterTriggerCommand,
            428 => Self::LBRACE_AlterTriggerCommandsList_OptSemicolons_RBRACE,
            429 => Self::LBRACE_OptSemicolons_RBRACE,
            _ => Self::LBRACE_Semicolons_AlterTriggerCommandsList_OptSemicolons_RBRACE,
        }
    }
}

impl FromId for AlterTriggerCommandsList {
    open spec fn has_production(id: usize) -> bool {
        431 <= id <= 432
    }

    open spec fn production_id(self) -> usize {
        match self {
            Self::AlterTriggerCommand => 431,
            Self::AlterTriggerCommandsList_Semicolons_AlterTriggerCommand => 432,
        }
    }

    fn from_id(id: usize) -> Self {
        match id {
            431 => Self::AlterTriggerCommand,
            _ => Self::AlterTriggerCommandsList_Semicolons_AlterTriggerCommand,
        }
    }
}

impl FromId for AlterTriggerStmt {
    open spec fn has_production(id: usize) -> bool {
        id == 433
    }

    open spec fn production_id(self) -> usize {
        match self {
            Self::ALTER_TRIGGER_UnqualifiedPointerName_AlterTriggerCommandsBlock => 433,
        }
    }

    fn from_id(_id: usize) -> Self {
        Self::ALTER_TRIGGER_UnqualifiedPointerName_AlterTriggerCommandsBlock
    }
}

impl FromId for AnalyzeStmt {
    open spec fn has_production(id: usize) -> bool {
        434 <= id <= 435
    }

    open spec fn production_id(self) -> usize {
        match self {
            Self::ANALYZE_ExprStmt => 434,
            Self::ANALYZE_NamedTuple_ExprStmt => 435,
        }
    }

    fn from_id(id: usize) -> Self {
        match id {
            434 => Self::ANALYZE_ExprStmt,
            _ => Self::ANALYZE_NamedTuple_ExprStmt,
        }
    }
}

impl FromId for AnnotationDeclaration {
    open spec fn has_production(id: usize) -> bool {
        436 <= id <= 437
    }

    open spec fn production_id(self) -> usize {
        match self {
            Self::ABSTRACT_ANNOTATION_NodeName_OptExtendingSimple_CreateSDLCommandsBlock => 436,
            Self::ABSTRACT_INHERITABLE_ANNOTATION_NodeName_OptExtendingSimple_CreateSDLCommandsBlock => 437,
        }
    }

    fn from_id(id: usize) -> Self {
        match id {
            436 => Self::ABSTRACT_ANNOTATION_NodeName_OptExtendingSimple_CreateSDLCommandsBlock,
            _ => Self::ABSTRACT_INHERITABLE_ANNOTATION_NodeName_OptExtendingSimple_CreateSDLCommandsBlock,
        }
    }
}

impl FromId for AnnotationDeclarationShort {
    open spec fn has_production(id: usize) -> bool {
        438 <= id <= 439
    }

    open spec fn production_id(self) -> usize {
        match self {
            Self::ABSTRACT_ANNOTATION_NodeName_OptExtendingSimple => 438,
            Self::ABSTRACT_INHERITABLE_ANNOTATION_NodeName_OptExtendingSimple => 439,
        }
    }

    fn from_id(id: usize) -> Self {
        match id {
            438 => Self::ABSTRACT_ANNOTATION_NodeName_OptExtendingSimple,
            _ => Self::ABSTRACT_INHERITABLE_ANNOTATION_NodeName_OptExtendingSimple,
        }
    }
}

impl FromId for AnnoyingFor {
    open spec fn has_production(id: usize) -> bool {
        id == 440
    }

    open spec fn production_id(self) -> usize {
        match self {
            Self::FOR_OptionalOptional_Identifier_IN_AtomicExpr_ExprStmtAnnoying => 440,
        }
    }

    fn from_id(_id: usize) -> Self {
        Self::FOR_OptionalOptional_Identifier_IN_AtomicExpr_ExprStmtAnnoying
    }
}

impl FromId for AnyIdentifier {
    open spec fn has_production(id: usize) -> bool {
        441 <= id <= 442
    }

    open spec fn production_id(self) -> usize {
        match self {
            Self::PtrIdentifier => 441,
            Self::ReservedKeyword => 442,
        }
    }

    fn from_id(id: usize) -> Self {
        match id {
            441 => Self::PtrIdentifier,
            _ => Self::ReservedKeyword,
        }
    }
}

impl FromId for AnyNodeName {
    open spec fn has_production(id: usize) -> bool {
        id == 443
    }

    open spec fn production_id(self) -> usize {
        match self {
            Self::AnyIdentifier => 443,
        }
    }

    fn from_id(_id: usize) -> Self {
        Self::AnyIdentifier
    }
}

impl FromId for AtomicExpr {
    open spec fn has_production(id: usize) -> bool {
        444 <= id <= 446
    }

    open spec fn production_id(self) -> usize {
        match self {
            Self::AtomicPath => 444,
            Self::BaseAtomicExpr => 445,
            Self::LANGBRACKET_FullTypeExpr_RANGBRACKET_AtomicExpr_P_TYPECAST => 446,
        }
    }

    fn from_id(id: usize) -> Self {
        match id {
            444 => Self::AtomicPath,
            445 => Self::BaseAtomicExpr,
            _ => Self::LANGBRACKET_FullTypeExpr_RANGBRACKET_AtomicExpr_P_TYPECAST,
        }
    }
}

impl FromId for AtomicPath {
    open spec fn has_production(id: usize) -> bool {
        id == 447
    }

    open spec fn production_id(self) -> usize {
        match self {
            Self::AtomicExpr_PathStep_P_DOT => 447,
        }
    }

    fn from_id(_id: usize) -> Self {
        Self::AtomicExpr_PathStep_P_DOT
    }
}

impl FromId for BaseAtomicExpr {
    open spec fn has_production(id: usize) -> bool {
        448 <= id <= 464
    }

    open spec fn production_id(self) -> usize {
        match self {
            Self::Collection => 448,
            Self::Constant => 449,
            Self::DUNDERDEFAULT => 450,
            Self::DUNDERNEW => 451,
            Self::DUNDEROLD => 452,
            Self::DUNDERSOURCE => 453,
            Self::DUNDERSPECIFIED => 454,
            Self::DUNDERSUBJECT => 455,
            Self::FreeShape => 456,
            Self::FuncExpr => 457,
            Self::NamedTuple => 458,
            Self::NodeName_P_DOT => 459,
            Self::ParenExpr_P_UMINUS => 460,
            Self::PathStep_P_DOT => 461,
            Self::SetLiteral => 462,
            Self::StringInterpolation => 463,
            Self::Tuple => 464,
        }
    }

    fn from_id(id: usize) -> Self {
        match id {
            448 => Self::Collection,
            449 => Self::Constant,
            450 => Self::DUNDERDEFAULT,
            451 => Self::DUNDERNEW,
            452 => Self::DUNDEROLD,
            453 => Self::DUNDERSOURCE,
            454 => Self::DUNDERSPECIFIED,
            455 => Self::DUNDERSUBJECT,
            456 => Self::FreeShape,
            457 => Self::FuncExpr,
            458 => Self::NamedTuple,
            459 => Self::NodeName_P_DOT,
            460 => Self::ParenExpr_P_UMINUS,
            461 => Self::PathStep_P_DOT,
            462 => Self::SetLiteral,
            463 => Self::StringInterpolation,
            _ => Self::Tuple,
        }
    }
}

impl FromId for BaseBooleanConstant {
    open spec fn has_production(id: usize) -> bool {
        465 <= id <= 466
    }

    open spec fn production_id(self) -> usize {
        match self {
            Self::FALSE => 465,
            Self::TRUE => 466,
        }
    }

    fn from_id(id: usize) -> Self {
        match id {
            465 => Self::FALSE,
            _ => Self::TRUE,
        }
    }
}

impl FromId for BaseBytesConstant {
    open spec fn has_production(id: usize) -> bool {
        id == 467
    }

    open spec fn production_id(self) -> usize {
        match self {
            Self::BCONST => 467,
        }
    }

    fn from_id(_id: usize) -> Self {
        Self::BCONST
    }
}

impl FromId for BaseName {
    open spec fn has_production(id: usize) -> bool {
        468 <= id <= 469
    }

    open spec fn production_id(self) -> usize {
        match self {
            Self::Identifier => 468,
            Self::QualifiedName => 469,
        }
    }

    fn from_id(id: usize) -> Self {
        match id {
            468 => Self::Identifier,
            _ => Self::QualifiedName,
        }
    }
}

impl FromId for BaseNumberConstant {
    open spec fn has_production(id: usize) -> bool {
        470 <= id <= 473
    }

    open spec fn production_id(self) -> usize {
        match self {
            Self::FCONST => 470,
            Self::ICONST => 471,
            Self::NFCONST => 472,
            Self::NICONST => 473,
        }
    }

    fn from_id(id: usize) -> Self {
        match id {
            470 => Self::FCONST,
            471 => Self::ICONST,
            472 => Self::NFCONST,
            _ => Self::NICONST,
        }
    }
}

impl FromId for BaseStringConstant {
    open spec fn has_production(id: usize) -> bool {
        id == 474
    }

    open spec fn production_id(self) -> usize {
        match self {
            Self::SCONST => 474,
        }
    }

    fn from_id(_id: usize) -> Self {
        Self::SCONST
    }
}

impl FromId for BranchOptions {
    open spec fn has_production(id: usize) -> bool {
        475 <= id <= 476
    }

    open spec fn production_id(self) -> usize {
        match self {
            Self::FORCE => 475,
            Self::epsilon => 476,
        }
    }

    fn from_id(id: usize) -> Self {
        match id {
            475 => Self::FORCE,
            _ => Self::epsilon,
        }
    }
}

impl FromId for BranchStmt {
    open spec fn has_production(id: usize) -> bool {
        477 <= id <= 479
    }

    open spec fn production_id(self) -> usize {
        match self {
            Self::AlterBranchStmt => 477,
            Self::CreateBranchStmt => 478,
            Self::DropBranchStmt => 479,
        }
    }

    fn from_id(id: usize) -> Self {
        match id {
            477 => Self::AlterBranchStmt,
            478 => Self::CreateBranchStmt,
            _ => Self::DropBranchStmt,
        }
    }
}

impl FromId for ByClause {
    open spec fn has_production(id: usize) -> bool {
        id == 480
    }

    open spec fn production_id(self) -> usize {
        match self {
            Self::BY_GroupingElementList => 480,
        }
    }

    fn from_id(_id: usize) -> Self {
        Self::BY_GroupingElementList
    }
}

impl FromId for CastAllowedUse {
    open spec fn has_production(id: usize) -> bool {
        481 <= id <= 482
    }

    open spec fn production_id(self) -> usize {
        match self {
            Self::ALLOW_ASSIGNMENT => 481,
            Self::ALLOW_IMPLICIT => 482,
        }
    }

    fn from_id(id: usize) -> Self {
        match id {
            481 => Self::ALLOW_ASSIGNMENT,
            _ => Self::ALLOW_IMPLICIT,
        }
    }
}

impl FromId for CastCode {
    open spec fn has_production(id: usize) -> bool {
        483 <= id <= 486
    }

    open spec fn production_id(self) -> usize {
        match self {
            Self::USING_Identifier_BaseStringConstant => 483,
            Self::USING_Identifier_CAST => 484,
            Self::USING_Identifier_EXPRESSION => 485,
            Self::USING_Identifier_FUNCTION_BaseStringConstant => 486,
        }
    }

    fn from_id(id: usize) -> Self {
        match id {
            483 => Self::USING_Identifier_BaseStringConstant,
            484 => Self::USING_Identifier_CAST,
            485 => Self::USING_Identifier_EXPRESSION,
            _ => Self::USING_Identifier_FUNCTION_BaseStringConstant,
        }
    }
}

impl FromId for Collection {
    open spec fn has_production(id: usize) -> bool {
        id == 487
    }

    open spec fn production_id(self) -> usize {
        match self {
            Self::LBRACKET_OptExprList_RBRACKET => 487,
        }
    }

    fn from_id(_id: usize) -> Self {
        Self::LBRACKET_OptExprList_RBRACKET
    }
}

impl FromId for CollectionTypeName {
    open spec fn has_production(id: usize) -> bool {
        488 <= id <= 489
    }

    open spec fn production_id(self) -> usize {
        match self {
            Self::NodeName_LANGBRACKET_RANGBRACKET => 488,
            Self::NodeName_LANGBRACKET_SubtypeList_RANGBRACKET => 489,
        }
    }

    fn from_id(id: usize) -> Self {
        match id {
            488 => Self::NodeName_LANGBRACKET_RANGBRACKET,
            _ => Self::NodeName_LANGBRACKET_SubtypeList_RANGBRACKET,
        }
    }
}

impl FromId for ColonedIdents {
    open spec fn has_production(id: usize) -> bool {
        490 <= id <= 491
    }

    open spec fn production_id(self) -> usize {
        match self {
            Self::AnyIdentifier => 490,
            Self::ColonedIdents_DOUBLECOLON_AnyIdentifier => 491,
        }
    }

    fn from_id(id: usize) -> Self {
        match id {
            490 => Self::AnyIdentifier,
            _ => Self::ColonedIdents_DOUBLECOLON_AnyIdentifier,
        }
    }
}

impl FromId for CommitMigrationStmt {
    open spec fn has_production(id: usize) -> bool {
        492 <= id <= 493
    }

    open spec fn production_id(self) -> usize {
        match self {
            Self::COMMIT_MIGRATION => 492,
            Self::COMMIT_MIGRATION_REWRITE => 493,
        }
    }

    fn from_id(id: usize) -> Self {
        match id {
            492 => Self::COMMIT_MIGRATION,
            _ => Self::COMMIT_MIGRATION_REWRITE,
        }
    }
}

impl FromId for CompareOp {
    open spec fn has_production(id: usize) -> bool {
        494 <= id <= 501
    }

    open spec fn production_id(self) -> usize {
        match self {
            Self::DISTINCTFROM_P_COMPARE_OP => 494,
            Self::EQUALS_P_COMPARE_OP => 495,
            Self::GREATEREQ_P_COMPARE_OP => 496,
            Self::LANGBRACKET_P_COMPARE_OP => 497,
            Self::LESSEQ_P_COMPARE_OP => 498,
            Self::NOTDISTINCTFROM_P_COMPARE_OP => 499,
            Self::NOTEQ_P_COMPARE_OP => 500,
            Self::RANGBRACKET_P_COMPARE_OP => 501,
        }
    }

    fn from_id(id: usize) -> Self {
        match id {
            494 => Self::DISTINCTFROM_P_COMPARE_OP,
            495 => Self::EQUALS_P_COMPARE_OP,
            496 => Self::GREATEREQ_P_COMPARE_OP,
            497 => Self::LANGBRACKET_P_COMPARE_OP,
            498 => Self::LESSEQ_P_COMPARE_OP,
            499 => Self::NOTDISTINCTFROM_P_COMPARE_OP,
            500 => Self::NOTEQ_P_COMPARE_OP,
            _ => Self::RANGBRACKET_P_COMPARE_OP,
        }
    }
}

impl FromId for ComputableShapePointer {
    open spec fn has_production(id: usize) -> bool {
        502 <= id <= 512
    }

    open spec fn production_id(self) -> usize {
        match self {
            Self::MULTI_SimpleShapePointer_ASSIGN_GenExpr => 502,
            Self::OPTIONAL_MULTI_SimpleShapePointer_ASSIGN_GenExpr => 503,
            Self::OPTIONAL_SINGLE_SimpleShapePointer_ASSIGN_GenExpr => 504,
            Self::OPTIONAL_SimpleShapePointer_ASSIGN_GenExpr => 505,
            Self::REQUIRED_MULTI_SimpleShapePointer_ASSIGN_GenExpr => 506,
            Self::REQUIRED_SINGLE_SimpleShapePointer_ASSIGN_GenExpr => 507,
            Self::REQUIRED_SimpleShapePointer_ASSIGN_GenExpr => 508,
            Self::SINGLE_SimpleShapePointer_ASSIGN_GenExpr => 509,
            Self::SimpleShapePointer_ADDASSIGN_GenExpr => 510,
            Self::SimpleShapePointer_ASSIGN_GenExpr => 511,
            Self::SimpleShapePointer_REMASSIGN_GenExpr => 512,
        }
    }

    fn from_id(id: usize) -> Self {
        match id {
            502 => Self::MULTI_SimpleShapePointer_ASSIGN_GenExpr,
            503 => Self::OPTIONAL_MULTI_SimpleShapePointer_ASSIGN_GenExpr,
            504 => Self::OPTIONAL_SINGLE_SimpleShapePointer_ASSIGN_GenExpr,
            505 => Self::OPTIONAL_SimpleShapePointer_ASSIGN_GenExpr,
            506 => Self::REQUIRED_MULTI_SimpleShapePointer_ASSIGN_GenExpr,
            507 => Self::REQUIRED_SINGLE_SimpleShapePointer_ASSIGN_GenExpr,
            508 => Self::REQUIRED_SimpleShapePointer_ASSIGN_GenExpr,
            509 => Self::SINGLE_SimpleShapePointer_ASSIGN_GenExpr,
            510 => Self::SimpleShapePointer_ADDASSIGN_GenExpr,
            511 => Self::SimpleShapePointer_ASSIGN_GenExpr,
            _ => Self::SimpleShapePointer_REMASSIGN_GenExpr,
        }
    }
}

impl FromId for ConcreteConstraintBlock {
    open spec fn has_production(id: usize) -> bool {
        513 <= id <= 514
    }

    open spec fn production_id(self) -> usize {
        match self {
            Self::CONSTRAINT_NodeName_OptConcreteConstraintArgList_OptOnExpr_OptExceptExpr_CreateSDLCommandsBlock => 513,
            Self::DELEGATED_CONSTRAINT_NodeName_OptConcreteConstraintArgList_OptOnExpr_OptExceptExpr_CreateSDLCommandsBlock => 514,
        }
    }

    fn from_id(id: usize) -> Self {
        match id {
            513 => Self::CONSTRAINT_NodeName_OptConcreteConstraintArgList_OptOnExpr_OptExceptExpr_CreateSDLCommandsBlock,
            _ => Self::DELEGATED_CONSTRAINT_NodeName_OptConcreteConstraintArgList_OptOnExpr_OptExceptExpr_CreateSDLCommandsBlock,
        }
    }
}

impl FromId for ConcreteConstraintShort {
    open spec fn has_production(id: usize) -> bool {
        515 <= id <= 516
    }

    open spec fn production_id(self) -> usize {
        match self {
            Self::CONSTRAINT_NodeName_OptConcreteConstraintArgList_OptOnExpr_OptExceptExpr => 515,
            Self::DELEGATED_CONSTRAINT_NodeName_OptConcreteConstraintArgList_OptOnExpr_OptExceptExpr => 516,
        }
    }

    fn from_id(id: usize) -> Self {
        match id {
            515 => Self::CONSTRAINT_NodeName_OptConcreteConstraintArgList_OptOnExpr_OptExceptExpr,
            _ => Self::DELEGATED_CONSTRAINT_NodeName_OptConcreteConstraintArgList_OptOnExpr_OptExceptExpr,
        }
    }
}

impl FromId for ConcreteIndexDeclarationBlock {
    open spec fn has_production(id: usize) -> bool {
        517 <= id <= 522
    }

    open spec fn production_id(self) -> usize {
        match self {
            Self::DEFERRED_INDEX_OnExpr_OptExceptExpr_CreateConcreteIndexSDLCommandsBlock => 517,
            Self::INDEX_OnExpr_OptExceptExpr_CreateConcreteIndexSDLCommandsBlock => 518,
            Self::DEFERRED_INDEX_NodeName_OnExpr_OptExceptExpr_CreateConcreteIndexSDLCommandsBlock => 519,
            Self::DEFERRED_INDEX_NodeName_IndexExtArgList_OnExpr_OptExceptExpr_CreateConcreteIndexSDLCommandsBlock => 520,
            Self::INDEX_NodeName_OnExpr_OptExceptExpr_CreateConcreteIndexSDLCommandsBlock => 521,
            Self::INDEX_NodeName_IndexExtArgList_OnExpr_OptExceptExpr_CreateConcreteIndexSDLCommandsBlock => 522,
        }
    }

    fn from_id(id: usize) -> Self {
        match id {
            517 => Self::DEFERRED_INDEX_OnExpr_OptExceptExpr_CreateConcreteIndexSDLCommandsBlock,
            518 => Self::INDEX_OnExpr_OptExceptExpr_CreateConcreteIndexSDLCommandsBlock,
            519 => Self::DEFERRED_INDEX_NodeName_OnExpr_OptExceptExpr_CreateConcreteIndexSDLCommandsBlock,
            520 => Self::DEFERRED_INDEX_NodeName_IndexExtArgList_OnExpr_OptExceptExpr_CreateConcreteIndexSDLCommandsBlock,
            521 => Self::INDEX_NodeName_OnExpr_OptExceptExpr_CreateConcreteIndexSDLCommandsBlock,
            _ => Self::INDEX_NodeName_IndexExtArgList_OnExpr_OptExceptExpr_CreateConcreteIndexSDLCommandsBlock,
        }
    }
}

impl FromId for ConcreteIndexDeclarationShort {
    open spec fn has_production(id: usize) -> bool {
        523 <= id <= 528
    }

    open spec fn production_id(self) -> usize {
        match self {
            Self::DEFERRED_INDEX_NodeName_OnExpr_OptExceptExpr => 523,
            Self::DEFERRED_INDEX_NodeName_IndexExtArgList_OnExpr_OptExceptExpr => 524,
            Self::INDEX_NodeName_OnExpr_OptExceptExpr => 525,
            Self::INDEX_NodeName_IndexExtArgList_OnExpr_OptExceptExpr => 526,
            Self::DEFERRED_INDEX_OnExpr_OptExceptExpr => 527,
            Self::INDEX_OnExpr_OptExceptExpr => 528,
        }
    }

    fn from_id(id: usize) -> Self {
        match id {
            523 => Self::DEFERRED_INDEX_NodeName_OnExpr_OptExceptExpr,
            524 => Self::DEFERRED_INDEX_NodeName_IndexExtArgList_OnExpr_OptExceptExpr,
            525 => Self::INDEX_NodeName_OnExpr_OptExceptExpr,
            526 => Self::INDEX_NodeName_IndexExtArgList_OnExpr_OptExceptExpr,
            527 => Self::DEFERRED_INDEX_OnExpr_OptExceptExpr,
            _ => Self::INDEX_OnExpr_OptExceptExpr,
        }
    }
}

impl FromId for ConcreteLinkBlock {
    open spec fn has_production(id: usize) -> bool {
        529 <= id <= 532
    }

    open spec fn production_id(self) -> usize {
        match self {
            Self::OVERLOADED_LINK_PathNodeName_OptExtendingSimple_OptPtrTarget_CreateConcreteLinkSDLCommandsBlock => 529,
            Self::OVERLOADED_PtrQuals_LINK_PathNodeName_OptExtendingSimple_OptPtrTarget_CreateConcreteLinkSDLCommandsBlock => 530,
            Self::LINK_PathNodeName_OptExtendingSimple_OptPtrTarget_CreateConcreteLinkSDLCommandsBlock => 531,
            Self::PtrQuals_LINK_PathNodeName_OptExtendingSimple_OptPtrTarget_CreateConcreteLinkSDLCommandsBlock => 532,
        }
    }

    fn from_id(id: usize) -> Self {
        match id {
            529 => Self::OVERLOADED_LINK_PathNodeName_OptExtendingSimple_OptPtrTarget_CreateConcreteLinkSDLCommandsBlock,
            530 => Self::OVERLOADED_PtrQuals_LINK_PathNodeName_OptExtendingSimple_OptPtrTarget_CreateConcreteLinkSDLCommandsBlock,
            531 => Self::LINK_PathNodeName_OptExtendingSimple_OptPtrTarget_CreateConcreteLinkSDLCommandsBlock,
            _ => Self::PtrQuals_LINK_PathNodeName_OptExtendingSimple_OptPtrTarget_CreateConcreteLinkSDLCommandsBlock,
        }
    }
}

impl FromId for ConcreteLinkShort {
    open spec fn has_production(id: usize) -> bool {
        533 <= id <= 538
    }

    open spec fn production_id(self) -> usize {
        match self {
            Self::LINK_PathNodeName_ASSIGN_GenExpr => 533,
            Self::OVERLOADED_LINK_PathNodeName_OptExtendingSimple_OptPtrTarget => 534,
            Self::OVERLOADED_PtrQuals_LINK_PathNodeName_OptExtendingSimple_OptPtrTarget => 535,
            Self::PtrQuals_LINK_PathNodeName_ASSIGN_GenExpr => 536,
            Self::LINK_PathNodeName_OptExtendingSimple_PtrTarget => 537,
            Self::PtrQuals_LINK_PathNodeName_OptExtendingSimple_PtrTarget => 538,
        }
    }

    fn from_id(id: usize) -> Self {
        match id {
            533 => Self::LINK_PathNodeName_ASSIGN_GenExpr,
            534 => Self::OVERLOADED_LINK_PathNodeName_OptExtendingSimple_OptPtrTarget,
            535 => Self::OVERLOADED_PtrQuals_LINK_PathNodeName_OptExtendingSimple_OptPtrTarget,
            536 => Self::PtrQuals_LINK_PathNodeName_ASSIGN_GenExpr,
            537 => Self::LINK_PathNodeName_OptExtendingSimple_PtrTarget,
            _ => Self::PtrQuals_LINK_PathNodeName_OptExtendingSimple_PtrTarget,
        }
    }
}

impl FromId for ConcretePropertyBlock {
    open spec fn has_production(id: usize) -> bool {
        539 <= id <= 542
    }

    open spec fn production_id(self) -> usize {
        match self {
            Self::OVERLOADED_PROPERTY_PathNodeName_OptExtendingSimple_OptPtrTarget_CreateConcretePropertySDLCommandsBlock => 539,
            Self::OVERLOADED_PtrQuals_PROPERTY_PathNodeName_OptExtendingSimple_OptPtrTarget_CreateConcretePropertySDLCommandsBlock => 540,
            Self::PROPERTY_PathNodeName_OptExtendingSimple_OptPtrTarget_CreateConcretePropertySDLCommandsBlock => 541,
            Self::PtrQuals_PROPERTY_PathNodeName_OptExtendingSimple_OptPtrTarget_CreateConcretePropertySDLCommandsBlock => 542,
        }
    }

    fn from_id(id: usize) -> Self {
        match id {
            539 => Self::OVERLOADED_PROPERTY_PathNodeName_OptExtendingSimple_OptPtrTarget_CreateConcretePropertySDLCommandsBlock,
            540 => Self::OVERLOADED_PtrQuals_PROPERTY_PathNodeName_OptExtendingSimple_OptPtrTarget_CreateConcretePropertySDLCommandsBlock,
            541 => Self::PROPERTY_PathNodeName_OptExtendingSimple_OptPtrTarget_CreateConcretePropertySDLCommandsBlock,
            _ => Self::PtrQuals_PROPERTY_PathNodeName_OptExtendingSimple_OptPtrTarget_CreateConcretePropertySDLCommandsBlock,
        }
    }
}

impl FromId for ConcretePropertyShort {
    open spec fn has_production(id: usize) -> bool {
        543 <= id <= 548
    }

    open spec fn production_id(self) -> usize {
        match self {
            Self::PROPERTY_PathNodeName_ASSIGN_GenExpr => 543,
            Self::OVERLOADED_PROPERTY_PathNodeName_OptExtendingSimple_OptPtrTarget => 544,
            Self::OVERLOADED_PtrQuals_PROPERTY_PathNodeName_OptExtendingSimple_OptPtrTarget => 545,
            Self::PtrQuals_PROPERTY_PathNodeName_ASSIGN_GenExpr => 546,
            Self::PROPERTY_PathNodeName_OptExtendingSimple_PtrTarget => 547,
            Self::PtrQuals_PROPERTY_PathNodeName_OptExtendingSimple_PtrTarget => 548,
        }
    }

    fn from_id(id: usize) -> Self {
        match id {
            543 => Self::PROPERTY_PathNodeName_ASSIGN_GenExpr,
            544 => Self::OVERLOADED_PROPERTY_PathNodeName_OptExtendingSimple_OptPtrTarget,
            545 => Self::OVERLOADED_PtrQuals_PROPERTY_PathNodeName_OptExtendingSimple_OptPtrTarget,
            546 => Self::PtrQuals_PROPERTY_PathNodeName_ASSIGN_GenExpr,
            547 => Self::PROPERTY_PathNodeName_OptExtendingSimple_PtrTarget,
            _ => Self::PtrQuals_PROPERTY_PathNodeName_OptExtendingSimple_PtrTarget,
        }
    }
}

impl FromId for ConcreteUnknownPointerBlock {
    open spec fn has_production(id: usize) -> bool {
        549 <= id <= 552
    }

    open spec fn production_id(self) -> usize {
        match self {
            Self::OVERLOADED_PathNodeName_OptExtendingSimple_OptPtrTarget_CreateConcreteLinkSDLCommandsBlock => 549,
            Self::OVERLOADED_PtrQuals_PathNodeName_OptExtendingSimple_OptPtrTarget_CreateConcreteLinkSDLCommandsBlock => 550,
            Self::PathNodeName_OptExtendingSimple_OptPtrTarget_CreateConcreteLinkSDLCommandsBlock => 551,
            Self::PtrQuals_PathNodeName_OptExtendingSimple_OptPtrTarget_CreateConcreteLinkSDLCommandsBlock => 552,
        }
    }

    fn from_id(id: usize) -> Self {
        match id {
            549 => Self::OVERLOADED_PathNodeName_OptExtendingSimple_OptPtrTarget_CreateConcreteLinkSDLCommandsBlock,
            550 => Self::OVERLOADED_PtrQuals_PathNodeName_OptExtendingSimple_OptPtrTarget_CreateConcreteLinkSDLCommandsBlock,
            551 => Self::PathNodeName_OptExtendingSimple_OptPtrTarget_CreateConcreteLinkSDLCommandsBlock,
            _ => Self::PtrQuals_PathNodeName_OptExtendingSimple_OptPtrTarget_CreateConcreteLinkSDLCommandsBlock,
        }
    }
}

impl FromId for ConcreteUnknownPointerObjectShort {
    open spec fn has_production(id: usize) -> bool {
        553 <= id <= 554
    }

    open spec fn production_id(self) -> usize {
        match self {
            Self::PathNodeName_ASSIGN_GenExpr => 553,
            Self::PtrQuals_PathNodeName_ASSIGN_GenExpr => 554,
        }
    }

    fn from_id(id: usize) -> Self {
        match id {
            553 => Self::PathNodeName_ASSIGN_GenExpr,
            _ => Self::PtrQuals_PathNodeName_ASSIGN_GenExpr,
        }
    }
}

impl FromId for ConcreteUnknownPointerShort {
    open spec fn has_production(id: usize) -> bool {
        555 <= id <= 558
    }

    open spec fn production_id(self) -> usize {
        match self {
            Self::OVERLOADED_PathNodeName_OptExtendingSimple_OptPtrTarget => 555,
            Self::OVERLOADED_PtrQuals_PathNodeName_OptExtendingSimple_OptPtrTarget => 556,
            Self::PathNodeName_OptExtendingSimple_PtrTarget => 557,
            Self::PtrQuals_PathNodeName_OptExtendingSimple_PtrTarget => 558,
        }
    }

    fn from_id(id: usize) -> Self {
        match id {
            555 => Self::OVERLOADED_PathNodeName_OptExtendingSimple_OptPtrTarget,
            556 => Self::OVERLOADED_PtrQuals_PathNodeName_OptExtendingSimple_OptPtrTarget,
            557 => Self::PathNodeName_OptExtendingSimple_PtrTarget,
            _ => Self::PtrQuals_PathNodeName_OptExtendingSimple_PtrTarget,
        }
    }
}

impl FromId for ConfigOp {
    open spec fn has_production(id: usize) -> bool {
        559 <= id <= 561
    }

    open spec fn production_id(self) -> usize {
        match self {
            Self::INSERT_NodeName_Shape => 559,
            Self::RESET_NodeName_OptFilterClause => 560,
            Self::SET_NodeName_ASSIGN_Expr => 561,
        }
    }

    fn from_id(id: usize) -> Self {
        match id {
            559 => Self::INSERT_NodeName_Shape,
            560 => Self::RESET_NodeName_OptFilterClause,
            _ => Self::SET_NodeName_ASSIGN_Expr,
        }
    }
}

impl FromId for ConfigScope {
    open spec fn has_production(id: usize) -> bool {
        562 <= id <= 566
    }

    open spec fn production_id(self) -> usize {
        match self {
            Self::CURRENT_BRANCH => 562,
            Self::CURRENT_DATABASE => 563,
            Self::INSTANCE => 564,
            Self::SESSION => 565,
            Self::SYSTEM => 566,
        }
    }

    fn from_id(id: usize) -> Self {
        match id {
            562 => Self::CURRENT_BRANCH,
            563 => Self::CURRENT_DATABASE,
            564 => Self::INSTANCE,
            565 => Self::SESSION,
            _ => Self::SYSTEM,
        }
    }
}

impl FromId for ConfigStmt {
    open spec fn has_production(id: usize) -> bool {
        567 <= id <= 571
    }

    open spec fn production_id(self) -> usize {
        match self {
            Self::CONFIGURE_BRANCH_ConfigOp => 567,
            Self::CONFIGURE_ConfigScope_ConfigOp => 568,
            Self::CONFIGURE_DATABASE_ConfigOp => 569,
            Self::RESET_GLOBAL_NodeName => 570,
            Self::SET_GLOBAL_NodeName_ASSIGN_Expr => 571,
        }
    }

    fn from_id(id: usize) -> Self {
        match id {
            567 => Self::CONFIGURE_BRANCH_ConfigOp,
            568 => Self::CONFIGURE_ConfigScope_ConfigOp,
            569 => Self::CONFIGURE_DATABASE_ConfigOp,
            570 => Self::RESET_GLOBAL_NodeName,
            _ => Self::SET_GLOBAL_NodeName_ASSIGN_Expr,
        }
    }
}

impl FromId for Constant {
    open spec fn has_production(id: usize) -> bool {
        572 <= id <= 577
    }

    open spec fn production_id(self) -> usize {
        match self {
            Self::BaseBooleanConstant => 572,
            Self::BaseBytesConstant => 573,
            Self::BaseNumberConstant => 574,
            Self::BaseStringConstant => 575,
            Self::PARAMETER => 576,
            Self::PARAMETERANDTYPE => 577,
        }
    }

    fn from_id(id: usize) -> Self {
        match id {
            572 => Self::BaseBooleanConstant,
            573 => Self::BaseBytesConstant,
            574 => Self::BaseNumberConstant,
            575 => Self::BaseStringConstant,
            576 => Self::PARAMETER,
            _ => Self::PARAMETERANDTYPE,
        }
    }
}

impl FromId for ConstraintDeclaration {
    open spec fn has_production(id: usize) -> bool {
        578 <= id <= 579
    }

    open spec fn production_id(self) -> usize {
        match self {
            Self::ABSTRACT_CONSTRAINT_NodeName_OptOnExpr_OptExtendingSimple_CreateSDLCommandsBlock => 578,
            Self::ABSTRACT_CONSTRAINT_NodeName_CreateFunctionArgs_OptOnExpr_OptExtendingSimple_CreateSDLCommandsBlock => 579,
        }
    }

    fn from_id(id: usize) -> Self {
        match id {
            578 => Self::ABSTRACT_CONSTRAINT_NodeName_OptOnExpr_OptExtendingSimple_CreateSDLCommandsBlock,
            _ => Self::ABSTRACT_CONSTRAINT_NodeName_CreateFunctionArgs_OptOnExpr_OptExtendingSimple_CreateSDLCommandsBlock,
        }
    }
}

impl FromId for ConstraintDeclarationShort {
    open spec fn has_production(id: usize) -> bool {
        580 <= id <= 581
    }

    open spec fn production_id(self) -> usize {
        match self {
            Self::ABSTRACT_CONSTRAINT_NodeName_OptOnExpr_OptExtendingSimple => 580,
            Self::ABSTRACT_CONSTRAINT_NodeName_CreateFunctionArgs_OptOnExpr_OptExtendingSimple => 581,
        }
    }

    fn from_id(id: usize) -> Self {
        match id {
            580 => Self::ABSTRACT_CONSTRAINT_NodeName_OptOnExpr_OptExtendingSimple,
            _ => Self::ABSTRACT_CONSTRAINT_NodeName_CreateFunctionArgs_OptOnExpr_OptExtendingSimple,
        }
    }
}

impl FromId for CreateAccessPolicyCommand {
    open spec fn has_production(id: usize) -> bool {
        582 <= id <= 583
    }

    open spec fn production_id(self) -> usize {
        match self {
            Self::CreateAnnotationValueStmt => 582,
            Self::SetFieldStmt => 583,
        }
    }

    fn from_id(id: usize) -> Self {
        match id {
            582 => Self::CreateAnnotationValueStmt,
            _ => Self::SetFieldStmt,
        }
    }
}

impl FromId for CreateAccessPolicyCommandsBlock {
    open spec fn has_production(id: usize) -> bool {
        584 <= id <= 586
    }

    open spec fn production_id(self) -> usize {
        match self {
            Self::LBRACE_CreateAccessPolicyCommandsList_OptSemicolons_RBRACE => 584,
            Self::LBRACE_OptSemicolons_RBRACE => 585,
            Self::LBRACE_Semicolons_CreateAccessPolicyCommandsList_OptSemicolons_RBRACE => 586,
        }
    }

    fn from_id(id: usize) -> Self {
        match id {
            584 => Self::LBRACE_CreateAccessPolicyCommandsList_OptSemicolons_RBRACE,
            585 => Self::LBRACE_OptSemicolons_RBRACE,
            _ => Self::LBRACE_Semicolons_CreateAccessPolicyCommandsList_OptSemicolons_RBRACE,
        }
    }
}

impl FromId for CreateAccessPolicyCommandsList {
    open spec fn has_production(id: usize) -> bool {
        587 <= id <= 588
    }

    open spec fn production_id(self) -> usize {
        match self {
            Self::CreateAccessPolicyCommand => 587,
            Self::CreateAccessPolicyCommandsList_Semicolons_CreateAccessPolicyCommand => 588,
        }
    }

    fn from_id(id: usize) -> Self {
        match id {
            587 => Self::CreateAccessPolicyCommand,
            _ => Self::CreateAccessPolicyCommandsList_Semicolons_CreateAccessPolicyCommand,
        }
    }
}

impl FromId for CreateAccessPolicySDLCommandFull {
    open spec fn has_production(id: usize) -> bool {
        id == 590
    }

    open spec fn production_id(self) -> usize {
        match self {
            Self::CreateAccessPolicySDLCommandShort_SEMICOLON => 590,
        }
    }

    fn from_id(_id: usize) -> Self {
        Self::CreateAccessPolicySDLCommandShort_SEMICOLON
    }
}

impl FromId for CreateAccessPolicySDLCommandShort {
    open spec fn has_production(id: usize) -> bool {
        591 <= id <= 592
    }

    open spec fn production_id(self) -> usize {
        match self {
            Self::SetAnnotation => 591,
            Self::SetField => 592,
        }
    }

    fn from_id(id: usize) -> Self {
        match id {
            591 => Self::SetAnnotation,
            _ => Self::SetField,
        }
    }
}

impl FromId for CreateAccessPolicySDLCommandsBlock {
    open spec fn has_production(id: usize) -> bool {
        593 <= id <= 596
    }

    open spec fn production_id(self) -> usize {
        match self {
            Self::LBRACE_OptSemicolons_CreateAccessPolicySDLCommandShort_RBRACE => 593,
            Self::LBRACE_OptSemicolons_CreateAccessPolicySDLCommandsList_OptSemicolons_CreateAccessPolicySDLCommandShort_RBRACE => 594,
            Self::LBRACE_OptSemicolons_CreateAccessPolicySDLCommandsList_OptSemicolons_RBRACE => 595,
            Self::LBRACE_OptSemicolons_RBRACE => 596,
        }
    }

    fn from_id(id: usize) -> Self {
        match id {
            593 => Self::LBRACE_OptSemicolons_CreateAccessPolicySDLCommandShort_RBRACE,
            594 => Self::LBRACE_OptSemicolons_CreateAccessPolicySDLCommandsList_OptSemicolons_CreateAccessPolicySDLCommandShort_RBRACE,
            595 => Self::LBRACE_OptSemicolons_CreateAccessPolicySDLCommandsList_OptSemicolons_RBRACE,
            _ => Self::LBRACE_OptSemicolons_RBRACE,
        }
    }
}

impl FromId for CreateAccessPolicySDLCommandsList {
    open spec fn has_production(id: usize) -> bool {
        597 <= id <= 598
    }

    open spec fn production_id(self) -> usize {
        match self {
            Self::CreateAccessPolicySDLCommandFull => 597,
            Self::CreateAccessPolicySDLCommandsList_OptSemicolons_CreateAccessPolicySDLCommandFull => 598,
        }
    }

    fn from_id(id: usize) -> Self {
        match id {
            597 => Self::CreateAccessPolicySDLCommandFull,
            _ => Self::CreateAccessPolicySDLCommandsList_OptSemicolons_CreateAccessPolicySDLCommandFull,
        }
    }
}

impl FromId for CreateAccessPolicyStmt {
    open spec fn has_production(id: usize) -> bool {
        id == 599
    }

    open spec fn production_id(self) -> usize {
        match self {
            Self::CREATE_ACCESS_POLICY_UnqualifiedPointerName_OptWhenBlock_AccessPolicyAction_AccessKindList_OptUsingBlock_OptCreateAccessPolicyCommandsBlock => 599,
        }
    }

    fn from_id(_id: usize) -> Self {
        Self::CREATE_ACCESS_POLICY_UnqualifiedPointerName_OptWhenBlock_AccessPolicyAction_AccessKindList_OptUsingBlock_OptCreateAccessPolicyCommandsBlock
    }
}

impl FromId for CreateAliasCommand {
    open spec fn has_production(id: usize) -> bool {
        600 <= id <= 603
    }

    open spec fn production_id(self) -> usize {
        match self {
            Self::AlterAnnotationValueStmt => 600,
            Self::CreateAnnotationValueStmt => 601,
            Self::SetFieldStmt => 602,
            Self::UsingStmt => 603,
        }
    }

    fn from_id(id: usize) -> Self {
        match id {
            600 => Self::AlterAnnotationValueStmt,
            601 => Self::CreateAnnotationValueStmt,
            602 => Self::SetFieldStmt,
            _ => Self::UsingStmt,
        }
    }
}

impl FromId for CreateAliasCommandsBlock {
    open spec fn has_production(id: usize) -> bool {
        604 <= id <= 607
    }

    open spec fn production_id(self) -> usize {
        match self {
            Self::CreateAliasCommand => 604,
            Self::LBRACE_CreateAliasCommandsList_OptSemicolons_RBRACE => 605,
            Self::LBRACE_OptSemicolons_RBRACE => 606,
            Self::LBRACE_Semicolons_CreateAliasCommandsList_OptSemicolons_RBRACE => 607,
        }
    }

    fn from_id(id: usize) -> Self {
        match id {
            604 => Self::CreateAliasCommand,
            605 => Self::LBRACE_CreateAliasCommandsList_OptSemicolons_RBRACE,
            606 => Self::LBRACE_OptSemicolons_RBRACE,
            _ => Self::LBRACE_Semicolons_CreateAliasCommandsList_OptSemicolons_RBRACE,
        }
    }
}

impl FromId for CreateAliasCommandsList {
    open spec fn has_production(id: usize) -> bool {
        608 <= id <= 609
    }

    open spec fn production_id(self) -> usize {
        match self {
            Self::CreateAliasCommand => 608,
            Self::CreateAliasCommandsList_Semicolons_CreateAliasCommand => 609,
        }
    }

    fn from_id(id: usize) -> Self {
        match id {
            608 => Self::CreateAliasCommand,
            _ => Self::CreateAliasCommandsList_Semicolons_CreateAliasCommand,
        }
    }
}

impl FromId for CreateAliasSDLCommandFull {
    open spec fn has_production(id: usize) -> bool {
        id == 611
    }

    open spec fn production_id(self) -> usize {
        match self {
            Self::CreateAliasSDLCommandShort_SEMICOLON => 611,
        }
    }

    fn from_id(_id: usize) -> Self {
        Self::CreateAliasSDLCommandShort_SEMICOLON
    }
}

impl FromId for CreateAliasSDLCommandShort {
    open spec fn has_production(id: usize) -> bool {
        612 <= id <= 614
    }

    open spec fn production_id(self) -> usize {
        match self {
            Self::SetAnnotation => 612,
            Self::SetField => 613,
            Self::Using => 614,
        }
    }

    fn from_id(id: usize) -> Self {
        match id {
            612 => Self::SetAnnotation,
            613 => Self::SetField,
            _ => Self::Using,
        }
    }
}

impl FromId for CreateAliasSDLCommandsBlock {
    open spec fn has_production(id: usize) -> bool {
        615 <= id <= 618
    }

    open spec fn production_id(self) -> usize {
        match self {
            Self::LBRACE_OptSemicolons_CreateAliasSDLCommandShort_RBRACE => 615,
            Self::LBRACE_OptSemicolons_CreateAliasSDLCommandsList_OptSemicolons_CreateAliasSDLCommandShort_RBRACE => 616,
            Self::LBRACE_OptSemicolons_CreateAliasSDLCommandsList_OptSemicolons_RBRACE => 617,
            Self::LBRACE_OptSemicolons_RBRACE => 618,
        }
    }

    fn from_id(id: usize) -> Self {
        match id {
            615 => Self::LBRACE_OptSemicolons_CreateAliasSDLCommandShort_RBRACE,
            616 => Self::LBRACE_OptSemicolons_CreateAliasSDLCommandsList_OptSemicolons_CreateAliasSDLCommandShort_RBRACE,
            617 => Self::LBRACE_OptSemicolons_CreateAliasSDLCommandsList_OptSemicolons_RBRACE,
            _ => Self::LBRACE_OptSemicolons_RBRACE,
        }
    }
}

impl FromId for CreateAliasSDLCommandsList {
    open spec fn has_production(id: usize) -> bool {
        619 <= id <= 620
    }

    open spec fn production_id(self) -> usize {
        match self {
            Self::CreateAliasSDLCommandFull => 619,
            Self::CreateAliasSDLCommandsList_OptSemicolons_CreateAliasSDLCommandFull => 620,
        }
    }

    fn from_id(id: usize) -> Self {
        match id {
            619 => Self::CreateAliasSDLCommandFull,
            _ => Self::CreateAliasSDLCommandsList_OptSemicolons_CreateAliasSDLCommandFull,
        }
    }
}

impl FromId for CreateAliasSingleSDLCommandBlock {
    open spec fn has_production(id: usize) -> bool {
        id == 622
    }

    open spec fn production_id(self) -> usize {
        match self {
            Self::CreateAliasSDLCommandShort => 622,
        }
    }

    fn from_id(_id: usize) -> Self {
        Self::CreateAliasSDLCommandShort
    }
}

impl FromId for CreateAliasStmt {
    open spec fn has_production(id: usize) -> bool {
        623 <= id <= 624
    }

    open spec fn production_id(self) -> usize {
        match self {
            Self::CREATE_ALIAS_NodeName_CreateAliasCommandsBlock => 623,
            Self::CREATE_ALIAS_NodeName_ASSIGN_GenExpr => 624,
        }
    }

    fn from_id(id: usize) -> Self {
        match id {
            623 => Self::CREATE_ALIAS_NodeName_CreateAliasCommandsBlock,
            _ => Self::CREATE_ALIAS_NodeName_ASSIGN_GenExpr,
        }
    }
}

impl FromId for CreateAnnotationCommand {
    open spec fn has_production(id: usize) -> bool {
        id == 625
    }

    open spec fn production_id(self) -> usize {
        match self {
            Self::CreateAnnotationValueStmt => 625,
        }
    }

    fn from_id(_id: usize) -> Self {
        Self::CreateAnnotationValueStmt
    }
}

impl FromId for CreateAnnotationCommandsBlock {
    open spec fn has_production(id: usize) -> bool {
        626 <= id <= 628
    }

    open spec fn production_id(self) -> usize {
        match self {
            Self::LBRACE_CreateAnnotationCommandsList_OptSemicolons_RBRACE => 626,
            Self::LBRACE_OptSemicolons_RBRACE => 627,
            Self::LBRACE_Semicolons_CreateAnnotationCommandsList_OptSemicolons_RBRACE => 628,
        }
    }

    fn from_id(id: usize) -> Self {
        match id {
            626 => Self::LBRACE_CreateAnnotationCommandsList_OptSemicolons_RBRACE,
            627 => Self::LBRACE_OptSemicolons_RBRACE,
            _ => Self::LBRACE_Semicolons_CreateAnnotationCommandsList_OptSemicolons_RBRACE,
        }
    }
}

impl FromId for CreateAnnotationCommandsList {
    open spec fn has_production(id: usize) -> bool {
        629 <= id <= 630
    }

    open spec fn production_id(self) -> usize {
        match self {
            Self::CreateAnnotationCommand => 629,
            Self::CreateAnnotationCommandsList_Semicolons_CreateAnnotationCommand => 630,
        }
    }

    fn from_id(id: usize) -> Self {
        match id {
            629 => Self::CreateAnnotationCommand,
            _ => Self::CreateAnnotationCommandsList_Semicolons_CreateAnnotationCommand,
        }
    }
}

impl FromId for CreateAnnotationStmt {
    open spec fn has_production(id: usize) -> bool {
        631 <= id <= 632
    }

    open spec fn production_id(self) -> usize {
        match self {
            Self::CREATE_ABSTRACT_ANNOTATION_NodeName_OptCreateAnnotationCommandsBlock => 631,
            Self::CREATE_ABSTRACT_INHERITABLE_ANNOTATION_NodeName_OptCreateCommandsBlock => 632,
        }
    }

    fn from_id(id: usize) -> Self {
        match id {
            631 => Self::CREATE_ABSTRACT_ANNOTATION_NodeName_OptCreateAnnotationCommandsBlock,
            _ => Self::CREATE_ABSTRACT_INHERITABLE_ANNOTATION_NodeName_OptCreateCommandsBlock,
        }
    }
}

impl FromId for CreateAnnotationValueStmt {
    open spec fn has_production(id: usize) -> bool {
        id == 633
    }

    open spec fn production_id(self) -> usize {
        match self {
            Self::CREATE_ANNOTATION_NodeName_ASSIGN_GenExpr => 633,
        }
    }

    fn from_id(_id: usize) -> Self {
        Self::CREATE_ANNOTATION_NodeName_ASSIGN_GenExpr
    }
}

impl FromId for CreateBranchStmt {
    open spec fn has_production(id: usize) -> bool {
        634 <= id <= 637
    }

    open spec fn production_id(self) -> usize {
        match self {
            Self::CREATE_EMPTY_BRANCH_DatabaseName => 634,
            Self::CREATE_DATA_BRANCH_DatabaseName_FROM_DatabaseName => 635,
            Self::CREATE_SCHEMA_BRANCH_DatabaseName_FROM_DatabaseName => 636,
            Self::CREATE_TEMPLATE_BRANCH_DatabaseName_FROM_DatabaseName => 637,
        }
    }

    fn from_id(id: usize) -> Self {
        match id {
            634 => Self::CREATE_EMPTY_BRANCH_DatabaseName,
            635 => Self::CREATE_DATA_BRANCH_DatabaseName_FROM_DatabaseName,
            636 => Self::CREATE_SCHEMA_BRANCH_DatabaseName_FROM_DatabaseName,
            _ => Self::CREATE_TEMPLATE_BRANCH_DatabaseName_FROM_DatabaseName,
        }
    }
}

impl FromId for CreateCastCommand {
    open spec fn has_production(id: usize) -> bool {
        638 <= id <= 642
    }

    open spec fn production_id(self) -> usize {
        match self {
            Self::AlterAnnotationValueStmt => 638,
            Self::CastAllowedUse => 639,
            Self::CastCode => 640,
            Self::CreateAnnotationValueStmt => 641,
            Self::SetFieldStmt => 642,
        }
    }

    fn from_id(id: usize) -> Self {
        match id {
            638 => Self::AlterAnnotationValueStmt,
            639 => Self::CastAllowedUse,
            640 => Self::CastCode,
            641 => Self::CreateAnnotationValueStmt,
            _ => Self::SetFieldStmt,
        }
    }
}

impl FromId for CreateCastCommandsBlock {
    open spec fn has_production(id: usize) -> bool {
        643 <= id <= 646
    }

    open spec fn production_id(self) -> usize {
        match self {
            Self::CreateCastCommand => 643,
            Self::LBRACE_CreateCastCommandsList_OptSemicolons_RBRACE => 644,
            Self::LBRACE_OptSemicolons_RBRACE => 645,
            Self::LBRACE_Semicolons_CreateCastCommandsList_OptSemicolons_RBRACE => 646,
        }
    }

    fn from_id(id: usize) -> Self {
        match id {
            643 => Self::CreateCastCommand,
            644 => Self::LBRACE_CreateCastCommandsList_OptSemicolons_RBRACE,
            645 => Self::LBRACE_OptSemicolons_RBRACE,
            _ => Self::LBRACE_Semicolons_CreateCastCommandsList_OptSemicolons_RBRACE,
        }
    }
}

impl FromId for CreateCastCommandsList {
    open spec fn has_production(id: usize) -> bool {
        647 <= id <= 648
    }

    open spec fn production_id(self) -> usize {
        match self {
            Self::CreateCastCommand => 647,
            Self::CreateCastCommandsList_Semicolons_CreateCastCommand => 648,
        }
    }

    fn from_id(id: usize) -> Self {
        match id {
            647 => Self::CreateCastCommand,
            _ => Self::CreateCastCommandsList_Semicolons_CreateCastCommand,
        }
    }
}

impl FromId for CreateCastStmt {
    open spec fn has_production(id: usize) -> bool {
        id == 649
    }

    open spec fn production_id(self) -> usize {
        match self {
            Self::CREATE_CAST_FROM_TypeName_TO_TypeName_CreateCastCommandsBlock => 649,
        }
    }

    fn from_id(_id: usize) -> Self {
        Self::CREATE_CAST_FROM_TypeName_TO_TypeName_CreateCastCommandsBlock
    }
}

impl FromId for CreateCommand {
    open spec fn has_production(id: usize) -> bool {
        650 <= id <= 653
    }

    open spec fn production_id(self) -> usize {
        match self {
            Self::AlterAnnotationValueStmt => 650,
            Self::CreateAnnotationValueStmt => 651,
            Self::SetFieldStmt => 652,
            Self::UsingStmt => 653,
        }
    }

    fn from_id(id: usize) -> Self {
        match id {
            650 => Self::AlterAnnotationValueStmt,
            651 => Self::CreateAnnotationValueStmt,
            652 => Self::SetFieldStmt,
            _ => Self::UsingStmt,
        }
    }
}

impl FromId for CreateCommandsBlock {
    open spec fn has_production(id: usize) -> bool {
        654 <= id <= 656
    }

    open spec fn production_id(self) -> usize {
        match self {
            Self::LBRACE_CreateCommandsList_OptSemicolons_RBRACE => 654,
            Self::LBRACE_OptSemicolons_RBRACE => 655,
            Self::LBRACE_Semicolons_CreateCommandsList_OptSemicolons_RBRACE => 656,
        }
    }

    fn from_id(id: usize) -> Self {
        match id {
            654 => Self::LBRACE_CreateCommandsList_OptSemicolons_RBRACE,
            655 => Self::LBRACE_OptSemicolons_RBRACE,
            _ => Self::LBRACE_Semicolons_CreateCommandsList_OptSemicolons_RBRACE,
        }
    }
}

impl FromId for CreateCommandsList {
    open spec fn has_production(id: usize) -> bool {
        657 <= id <= 658
    }

    open spec fn production_id(self) -> usize {
        match self {
            Self::CreateCommand => 657,
            Self::CreateCommandsList_Semicolons_CreateCommand => 658,
        }
    }

    fn from_id(id: usize) -> Self {
        match id {
            657 => Self::CreateCommand,
            _ => Self::CreateCommandsList_Semicolons_CreateCommand,
        }
    }
}

impl FromId for CreateConcreteConstraintStmt {
    open spec fn has_production(id: usize) -> bool {
        id == 659
    }

    open spec fn production_id(self) -> usize {
        match self {
            Self::CREATE_OptDelegated_CONSTRAINT_NodeName_OptConcreteConstraintArgList_OptOnExpr_OptExceptExpr_OptCreateCommandsBlock => 659,
        }
    }

    fn from_id(_id: usize) -> Self {
        Self::CREATE_OptDelegated_CONSTRAINT_NodeName_OptConcreteConstraintArgList_OptOnExpr_OptExceptExpr_OptCreateCommandsBlock
    }
}

impl FromId for CreateConcreteIndexSDLCommandFull {
    open spec fn has_production(id: usize) -> bool {
        id == 661
    }

    open spec fn production_id(self) -> usize {
        match self {
            Self::CreateConcreteIndexSDLCommandShort_SEMICOLON => 661,
        }
    }

    fn from_id(_id: usize) -> Self {
        Self::CreateConcreteIndexSDLCommandShort_SEMICOLON
    }
}

impl FromId for CreateConcreteIndexSDLCommandShort {
    open spec fn has_production(id: usize) -> bool {
        662 <= id <= 663
    }

    open spec fn production_id(self) -> usize {
        match self {
            Self::SetAnnotation => 662,
            Self::SetField => 663,
        }
    }

    fn from_id(id: usize) -> Self {
        match id {
            662 => Self::SetAnnotation,
            _ => Self::SetField,
        }
    }
}

impl FromId for CreateConcreteIndexSDLCommandsBlock {
    open spec fn has_production(id: usize) -> bool {
        664 <= id <= 667
    }

    open spec fn production_id(self) -> usize {
        match self {
            Self::LBRACE_OptSemicolons_CreateConcreteIndexSDLCommandShort_RBRACE => 664,
            Self::LBRACE_OptSemicolons_CreateConcreteIndexSDLCommandsList_OptSemicolons_CreateConcreteIndexSDLCommandShort_RBRACE => 665,
            Self::LBRACE_OptSemicolons_CreateConcreteIndexSDLCommandsList_OptSemicolons_RBRACE => 666,
            Self::LBRACE_OptSemicolons_RBRACE => 667,
        }
    }

    fn from_id(id: usize) -> Self {
        match id {
            664 => Self::LBRACE_OptSemicolons_CreateConcreteIndexSDLCommandShort_RBRACE,
            665 => Self::LBRACE_OptSemicolons_CreateConcreteIndexSDLCommandsList_OptSemicolons_CreateConcreteIndexSDLCommandShort_RBRACE,
            666 => Self::LBRACE_OptSemicolons_CreateConcreteIndexSDLCommandsList_OptSemicolons_RBRACE,
            _ => Self::LBRACE_OptSemicolons_RBRACE,
        }
    }
}

impl FromId for CreateConcreteIndexSDLCommandsList {
    open spec fn has_production(id: usize) -> bool {
        668 <= id <= 669
    }

    open spec fn production_id(self) -> usize {
        match self {
            Self::CreateConcreteIndexSDLCommandFull => 668,
            Self::CreateConcreteIndexSDLCommandsList_OptSemicolons_CreateConcreteIndexSDLCommandFull => 669,
        }
    }

    fn from_id(id: usize) -> Self {
        match id {
            668 => Self::CreateConcreteIndexSDLCommandFull,
            _ => Self::CreateConcreteIndexSDLCommandsList_OptSemicolons_CreateConcreteIndexSDLCommandFull,
        }
    }
}

impl FromId for CreateConcreteIndexStmt {
    open spec fn has_production(id: usize) -> bool {
        670 <= id <= 671
    }

    open spec fn production_id(self) -> usize {
        match self {
            Self::CREATE_OptDeferred_INDEX_OnExpr_OptExceptExpr_OptCreateCommandsBlock => 670,
            Self::CREATE_OptDeferred_INDEX_NodeName_OptIndexExtArgList_OnExpr_OptExceptExpr_OptCreateCommandsBlock => 671,
        }
    }

    fn from_id(id: usize) -> Self {
        match id {
            670 => Self::CREATE_OptDeferred_INDEX_OnExpr_OptExceptExpr_OptCreateCommandsBlock,
            _ => Self::CREATE_OptDeferred_INDEX_NodeName_OptIndexExtArgList_OnExpr_OptExceptExpr_OptCreateCommandsBlock,
        }
    }
}

impl FromId for CreateConcreteLinkCommand {
    open spec fn has_production(id: usize) -> bool {
        672 <= id <= 683
    }

    open spec fn production_id(self) -> usize {
        match self {
            Self::AlterAnnotationValueStmt => 672,
            Self::CreateAnnotationValueStmt => 673,
            Self::CreateConcreteConstraintStmt => 674,
            Self::CreateConcreteIndexStmt => 675,
            Self::CreateConcretePropertyStmt => 676,
            Self::CreateRewriteStmt => 677,
            Self::CreateSimpleExtending => 678,
            Self::OnSourceDeleteStmt => 679,
            Self::OnTargetDeleteStmt => 680,
            Self::SetFieldStmt => 681,
            Self::SetRequiredInCreateStmt => 682,
            Self::UsingStmt => 683,
        }
    }

    fn from_id(id: usize) -> Self {
        match id {
            672 => Self::AlterAnnotationValueStmt,
            673 => Self::CreateAnnotationValueStmt,
            674 => Self::CreateConcreteConstraintStmt,
            675 => Self::CreateConcreteIndexStmt,
            676 => Self::CreateConcretePropertyStmt,
            677 => Self::CreateRewriteStmt,
            678 => Self::CreateSimpleExtending,
            679 => Self::OnSourceDeleteStmt,
            680 => Self::OnTargetDeleteStmt,
            681 => Self::SetFieldStmt,
            682 => Self::SetRequiredInCreateStmt,
            _ => Self::UsingStmt,
        }
    }
}

impl FromId for CreateConcreteLinkCommandsBlock {
    open spec fn has_production(id: usize) -> bool {
        684 <= id <= 686
    }

    open spec fn production_id(self) -> usize {
        match self {
            Self::LBRACE_CreateConcreteLinkCommandsList_OptSemicolons_RBRACE => 684,
            Self::LBRACE_OptSemicolons_RBRACE => 685,
            Self::LBRACE_Semicolons_CreateConcreteLinkCommandsList_OptSemicolons_RBRACE => 686,
        }
    }

    fn from_id(id: usize) -> Self {
        match id {
            684 => Self::LBRACE_CreateConcreteLinkCommandsList_OptSemicolons_RBRACE,
            685 => Self::LBRACE_OptSemicolons_RBRACE,
            _ => Self::LBRACE_Semicolons_CreateConcreteLinkCommandsList_OptSemicolons_RBRACE,
        }
    }
}

impl FromId for CreateConcreteLinkCommandsList {
    open spec fn has_production(id: usize) -> bool {
        687 <= id <= 688
    }

    open spec fn production_id(self) -> usize {
        match self {
            Self::CreateConcreteLinkCommand => 687,
            Self::CreateConcreteLinkCommandsList_Semicolons_CreateConcreteLinkCommand => 688,
        }
    }

    fn from_id(id: usize) -> Self {
        match id {
            687 => Self::CreateConcreteLinkCommand,
            _ => Self::CreateConcreteLinkCommandsList_Semicolons_CreateConcreteLinkCommand,
        }
    }
}

impl FromId for CreateConcreteLinkSDLCommandBlock {
    open spec fn has_production(id: usize) -> bool {
        689 <= id <= 693
    }

    open spec fn production_id(self) -> usize {
        match self {
            Self::ConcreteConstraintBlock => 689,
            Self::ConcreteIndexDeclarationBlock => 690,
            Self::ConcretePropertyBlock => 691,
            Self::ConcreteUnknownPointerBlock => 692,
            Self::RewriteDeclarationBlock => 693,
        }
    }

    fn from_id(id: usize) -> Self {
        match id {
            689 => Self::ConcreteConstraintBlock,
            690 => Self::ConcreteIndexDeclarationBlock,
            691 => Self::ConcretePropertyBlock,
            692 => Self::ConcreteUnknownPointerBlock,
            _ => Self::RewriteDeclarationBlock,
        }
    }
}

impl FromId for CreateConcreteLinkSDLCommandFull {
    open spec fn has_production(id: usize) -> bool {
        694 <= id <= 695
    }

    open spec fn production_id(self) -> usize {
        match self {
            Self::CreateConcreteLinkSDLCommandBlock => 694,
            Self::CreateConcreteLinkSDLCommandShort_SEMICOLON => 695,
        }
    }

    fn from_id(id: usize) -> Self {
        match id {
            694 => Self::CreateConcreteLinkSDLCommandBlock,
            _ => Self::CreateConcreteLinkSDLCommandShort_SEMICOLON,
        }
    }
}

impl FromId for CreateConcreteLinkSDLCommandShort {
    open spec fn has_production(id: usize) -> bool {
        696 <= id <= 706
    }

    open spec fn production_id(self) -> usize {
        match self {
            Self::ConcreteConstraintShort => 696,
            Self::ConcreteIndexDeclarationShort => 697,
            Self::ConcretePropertyShort => 698,
            Self::ConcreteUnknownPointerShort => 699,
            Self::CreateSimpleExtending => 700,
            Self::OnSourceDeleteStmt => 701,
            Self::OnTargetDeleteStmt => 702,
            Self::RewriteDeclarationShort => 703,
            Self::SetAnnotation => 704,
            Self::SetField => 705,
            Self::Using => 706,
        }
    }

    fn from_id(id: usize) -> Self {
        match id {
            696 => Self::ConcreteConstraintShort,
            697 => Self::ConcreteIndexDeclarationShort,
            698 => Self::ConcretePropertyShort,
            699 => Self::ConcreteUnknownPointerShort,
            700 => Self::CreateSimpleExtending,
            701 => Self::OnSourceDeleteStmt,
            702 => Self::OnTargetDeleteStmt,
            703 => Self::RewriteDeclarationShort,
            704 => Self::SetAnnotation,
            705 => Self::SetField,
            _ => Self::Using,
        }
    }
}

impl FromId for CreateConcreteLinkSDLCommandsBlock {
    open spec fn has_production(id: usize) -> bool {
        707 <= id <= 710
    }

    open spec fn production_id(self) -> usize {
        match self {
            Self::LBRACE_OptSemicolons_CreateConcreteLinkSDLCommandShort_RBRACE => 707,
            Self::LBRACE_OptSemicolons_CreateConcreteLinkSDLCommandsList_OptSemicolons_CreateConcreteLinkSDLCommandShort_RBRACE => 708,
            Self::LBRACE_OptSemicolons_CreateConcreteLinkSDLCommandsList_OptSemicolons_RBRACE => 709,
            Self::LBRACE_OptSemicolons_RBRACE => 710,
        }
    }

    fn from_id(id: usize) -> Self {
        match id {
            707 => Self::LBRACE_OptSemicolons_CreateConcreteLinkSDLCommandShort_RBRACE,
            708 => Self::LBRACE_OptSemicolons_CreateConcreteLinkSDLCommandsList_OptSemicolons_CreateConcreteLinkSDLCommandShort_RBRACE,
            709 => Self::LBRACE_OptSemicolons_CreateConcreteLinkSDLCommandsList_OptSemicolons_RBRACE,
            _ => Self::LBRACE_OptSemicolons_RBRACE,
        }
    }
}

impl FromId for CreateConcreteLinkSDLCommandsList {
    open spec fn has_production(id: usize) -> bool {
        711 <= id <= 712
    }

    open spec fn production_id(self) -> usize {
        match self {
            Self::CreateConcreteLinkSDLCommandFull => 711,
            Self::CreateConcreteLinkSDLCommandsList_OptSemicolons_CreateConcreteLinkSDLCommandFull => 712,
        }
    }

    fn from_id(id: usize) -> Self {
        match id {
            711 => Self::CreateConcreteLinkSDLCommandFull,
            _ => Self::CreateConcreteLinkSDLCommandsList_OptSemicolons_CreateConcreteLinkSDLCommandFull,
        }
    }
}

impl FromId for CreateConcreteLinkStmt {
    open spec fn has_production(id: usize) -> bool {
        713 <= id <= 716
    }

    open spec fn production_id(self) -> usize {
        match self {
            Self::CREATE_OptPtrQuals_LINK_UnqualifiedPointerName_ASSIGN_GenExpr => 713,
            Self::CREATE_OptPtrQuals_LINK_UnqualifiedPointerName_OptCreateConcreteLinkCommandsBlock => 714,
            Self::CREATE_OptPtrQuals_LINK_UnqualifiedPointerName_OptExtendingSimple_ARROW_FullTypeExpr_OptCreateConcreteLinkCommandsBlock => 715,
            Self::CREATE_OptPtrQuals_LINK_UnqualifiedPointerName_OptExtendingSimple_COLON_FullTypeExpr_OptCreateConcreteLinkCommandsBlock => 716,
        }
    }

    fn from_id(id: usize) -> Self {
        match id {
            713 => Self::CREATE_OptPtrQuals_LINK_UnqualifiedPointerName_ASSIGN_GenExpr,
            714 => Self::CREATE_OptPtrQuals_LINK_UnqualifiedPointerName_OptCreateConcreteLinkCommandsBlock,
            715 => Self::CREATE_OptPtrQuals_LINK_UnqualifiedPointerName_OptExtendingSimple_ARROW_FullTypeExpr_OptCreateConcreteLinkCommandsBlock,
            _ => Self::CREATE_OptPtrQuals_LINK_UnqualifiedPointerName_OptExtendingSimple_COLON_FullTypeExpr_OptCreateConcreteLinkCommandsBlock,
        }
    }
}

impl FromId for CreateConcretePropertyCommand {
    open spec fn has_production(id: usize) -> bool {
        717 <= id <= 724
    }

    open spec fn production_id(self) -> usize {
        match self {
            Self::AlterAnnotationValueStmt => 717,
            Self::CreateAnnotationValueStmt => 718,
            Self::CreateConcreteConstraintStmt => 719,
            Self::CreateRewriteStmt => 720,
            Self::CreateSimpleExtending => 721,
            Self::SetFieldStmt => 722,
            Self::SetRequiredInCreateStmt => 723,
            Self::UsingStmt => 724,
        }
    }

    fn from_id(id: usize) -> Self {
        match id {
            717 => Self::AlterAnnotationValueStmt,
            718 => Self::CreateAnnotationValueStmt,
            719 => Self::CreateConcreteConstraintStmt,
            720 => Self::CreateRewriteStmt,
            721 => Self::CreateSimpleExtending,
            722 => Self::SetFieldStmt,
            723 => Self::SetRequiredInCreateStmt,
            _ => Self::UsingStmt,
        }
    }
}

impl FromId for CreateConcretePropertyCommandsBlock {
    open spec fn has_production(id: usize) -> bool {
        725 <= id <= 727
    }

    open spec fn production_id(self) -> usize {
        match self {
            Self::LBRACE_CreateConcretePropertyCommandsList_OptSemicolons_RBRACE => 725,
            Self::LBRACE_OptSemicolons_RBRACE => 726,
            Self::LBRACE_Semicolons_CreateConcretePropertyCommandsList_OptSemicolons_RBRACE => 727,
        }
    }

    fn from_id(id: usize) -> Self {
        match id {
            725 => Self::LBRACE_CreateConcretePropertyCommandsList_OptSemicolons_RBRACE,
            726 => Self::LBRACE_OptSemicolons_RBRACE,
            _ => Self::LBRACE_Semicolons_CreateConcretePropertyCommandsList_OptSemicolons_RBRACE,
        }
    }
}

impl FromId for CreateConcretePropertyCommandsList {
    open spec fn has_production(id: usize) -> bool {
        728 <= id <= 729
    }

    open spec fn production_id(self) -> usize {
        match self {
            Self::CreateConcretePropertyCommand => 728,
            Self::CreateConcretePropertyCommandsList_Semicolons_CreateConcretePropertyCommand => 729,
        }
    }

    fn from_id(id: usize) -> Self {
        match id {
            728 => Self::CreateConcretePropertyCommand,
            _ => Self::CreateConcretePropertyCommandsList_Semicolons_CreateConcretePropertyCommand,
        }
    }
}

impl FromId for CreateConcretePropertySDLCommandBlock {
    open spec fn has_production(id: usize) -> bool {
        730 <= id <= 731
    }

    open spec fn production_id(self) -> usize {
        match self {
            Self::ConcreteConstraintBlock => 730,
            Self::RewriteDeclarationBlock => 731,
        }
    }

    fn from_id(id: usize) -> Self {
        match id {
            730 => Self::ConcreteConstraintBlock,
            _ => Self::RewriteDeclarationBlock,
        }
    }
}

impl FromId for CreateConcretePropertySDLCommandFull {
    open spec fn has_production(id: usize) -> bool {
        732 <= id <= 733
    }

    open spec fn production_id(self) -> usize {
        match self {
            Self::CreateConcretePropertySDLCommandBlock => 732,
            Self::CreateConcretePropertySDLCommandShort_SEMICOLON => 733,
        }
    }

    fn from_id(id: usize) -> Self {
        match id {
            732 => Self::CreateConcretePropertySDLCommandBlock,
            _ => Self::CreateConcretePropertySDLCommandShort_SEMICOLON,
        }
    }
}

impl FromId for CreateConcretePropertySDLCommandShort {
    open spec fn has_production(id: usize) -> bool {
        734 <= id <= 739
    }

    open spec fn production_id(self) -> usize {
        match self {
            Self::ConcreteConstraintShort => 734,
            Self::CreateSimpleExtending => 735,
            Self::RewriteDeclarationShort => 736,
            Self::SetAnnotation => 737,
            Self::SetField => 738,
            Self::Using => 739,
        }
    }

    fn from_id(id: usize) -> Self {
        match id {
            734 => Self::ConcreteConstraintShort,
            735 => Self::CreateSimpleExtending,
            736 => Self::RewriteDeclarationShort,
            737 => Self::SetAnnotation,
            738 => Self::SetField,
            _ => Self::Using,
        }
    }
}

impl FromId for CreateConcretePropertySDLCommandsBlock {
    open spec fn has_production(id: usize) -> bool {
        740 <= id <= 743
    }

    open spec fn production_id(self) -> usize {
        match self {
            Self::LBRACE_OptSemicolons_CreateConcretePropertySDLCommandShort_RBRACE => 740,
            Self::LBRACE_OptSemicolons_CreateConcretePropertySDLCommandsList_OptSemicolons_CreateConcretePropertySDLCommandShort_RBRACE => 741,
            Self::LBRACE_OptSemicolons_CreateConcretePropertySDLCommandsList_OptSemicolons_RBRACE => 742,
            Self::LBRACE_OptSemicolons_RBRACE => 743,
        }
    }

    fn from_id(id: usize) -> Self {
        match id {
            740 => Self::LBRACE_OptSemicolons_CreateConcretePropertySDLCommandShort_RBRACE,
            741 => Self::LBRACE_OptSemicolons_CreateConcretePropertySDLCommandsList_OptSemicolons_CreateConcretePropertySDLCommandShort_RBRACE,
            742 => Self::LBRACE_OptSemicolons_CreateConcretePropertySDLCommandsList_OptSemicolons_RBRACE,
            _ => Self::LBRACE_OptSemicolons_RBRACE,
        }
    }
}

impl FromId for CreateConcretePropertySDLCommandsList {
    open spec fn has_production(id: usize) -> bool {
        744 <= id <= 745
    }

    open spec fn production_id(self) -> usize {
        match self {
            Self::CreateConcretePropertySDLCommandFull => 744,
            Self::CreateConcretePropertySDLCommandsList_OptSemicolons_CreateConcretePropertySDLCommandFull => 745,
        }
    }

    fn from_id(id: usize) -> Self {
        match id {
            744 => Self::CreateConcretePropertySDLCommandFull,
            _ => Self::CreateConcretePropertySDLCommandsList_OptSemicolons_CreateConcretePropertySDLCommandFull,
        }
    }
}

impl FromId for CreateConcretePropertyStmt {
    open spec fn has_production(id: usize) -> bool {
        746 <= id <= 749
    }

    open spec fn production_id(self) -> usize {
        match self {
            Self::CREATE_OptPtrQuals_PROPERTY_UnqualifiedPointerName_ASSIGN_GenExpr => 746,
            Self::CREATE_OptPtrQuals_PROPERTY_UnqualifiedPointerName_OptCreateConcretePropertyCommandsBlock => 747,
            Self::CREATE_OptPtrQuals_PROPERTY_UnqualifiedPointerName_OptExtendingSimple_ARROW_FullTypeExpr_OptCreateConcretePropertyCommandsBlock => 748,
            Self::CREATE_OptPtrQuals_PROPERTY_UnqualifiedPointerName_OptExtendingSimple_COLON_FullTypeExpr_OptCreateConcretePropertyCommandsBlock => 749,
        }
    }

    fn from_id(id: usize) -> Self {
        match id {
            746 => Self::CREATE_OptPtrQuals_PROPERTY_UnqualifiedPointerName_ASSIGN_GenExpr,
            747 => Self::CREATE_OptPtrQuals_PROPERTY_UnqualifiedPointerName_OptCreateConcretePropertyCommandsBlock,
            748 => Self::CREATE_OptPtrQuals_PROPERTY_UnqualifiedPointerName_OptExtendingSimple_ARROW_FullTypeExpr_OptCreateConcretePropertyCommandsBlock,
            _ => Self::CREATE_OptPtrQuals_PROPERTY_UnqualifiedPointerName_OptExtendingSimple_COLON_FullTypeExpr_OptCreateConcretePropertyCommandsBlock,
        }
    }
}

impl FromId for CreateConstraintStmt {
    open spec fn has_production(id: usize) -> bool {
        750 <= id <= 751
    }

    open spec fn production_id(self) -> usize {
        match self {
            Self::CREATE_ABSTRACT_CONSTRAINT_NodeName_OptOnExpr_OptExtendingSimple_OptCreateCommandsBlock => 750,
            Self::CREATE_ABSTRACT_CONSTRAINT_NodeName_CreateFunctionArgs_OptOnExpr_OptExtendingSimple_OptCreateCommandsBlock => 751,
        }
    }

    fn from_id(id: usize) -> Self {
        match id {
            750 => Self::CREATE_ABSTRACT_CONSTRAINT_NodeName_OptOnExpr_OptExtendingSimple_OptCreateCommandsBlock,
            _ => Self::CREATE_ABSTRACT_CONSTRAINT_NodeName_CreateFunctionArgs_OptOnExpr_OptExtendingSimple_OptCreateCommandsBlock,
        }
    }
}

impl FromId for CreateDatabaseCommand {
    open spec fn has_production(id: usize) -> bool {
        id == 752
    }

    open spec fn production_id(self) -> usize {
        match self {
            Self::SetFieldStmt => 752,
        }
    }

    fn from_id(_id: usize) -> Self {
        Self::SetFieldStmt
    }
}

impl FromId for CreateDatabaseCommandsBlock {
    open spec fn has_production(id: usize) -> bool {
        753 <= id <= 755
    }

    open spec fn production_id(self) -> usize {
        match self {
            Self::LBRACE_CreateDatabaseCommandsList_OptSemicolons_RBRACE => 753,
            Self::LBRACE_OptSemicolons_RBRACE => 754,
            Self::LBRACE_Semicolons_CreateDatabaseCommandsList_OptSemicolons_RBRACE => 755,
        }
    }

    fn from_id(id: usize) -> Self {
        match id {
            753 => Self::LBRACE_CreateDatabaseCommandsList_OptSemicolons_RBRACE,
            754 => Self::LBRACE_OptSemicolons_RBRACE,
            _ => Self::LBRACE_Semicolons_CreateDatabaseCommandsList_OptSemicolons_RBRACE,
        }
    }
}

impl FromId for CreateDatabaseCommandsList {
    open spec fn has_production(id: usize) -> bool {
        756 <= id <= 757
    }

    open spec fn production_id(self) -> usize {
        match self {
            Self::CreateDatabaseCommand => 756,
            Self::CreateDatabaseCommandsList_Semicolons_CreateDatabaseCommand => 757,
        }
    }

    fn from_id(id: usize) -> Self {
        match id {
            756 => Self::CreateDatabaseCommand,
            _ => Self::CreateDatabaseCommandsList_Semicolons_CreateDatabaseCommand,
        }
    }
}

impl FromId for CreateDatabaseStmt {
    open spec fn has_production(id: usize) -> bool {
        758 <= id <= 759
    }

    open spec fn production_id(self) -> usize {
        match self {
            Self::CREATE_DATABASE_DatabaseName_FROM_AnyNodeName_OptCreateDatabaseCommandsBlock => 758,
            Self::CREATE_DATABASE_DatabaseName_OptCreateDatabaseCommandsBlock => 759,
        }
    }

    fn from_id(id: usize) -> Self {
        match id {
            758 => Self::CREATE_DATABASE_DatabaseName_FROM_AnyNodeName_OptCreateDatabaseCommandsBlock,
            _ => Self::CREATE_DATABASE_DatabaseName_OptCreateDatabaseCommandsBlock,
        }
    }
}

impl FromId for CreateExtensionCommand {
    open spec fn has_production(id: usize) -> bool {
        id == 760
    }

    open spec fn production_id(self) -> usize {
        match self {
            Self::SetFieldStmt => 760,
        }
    }

    fn from_id(_id: usize) -> Self {
        Self::SetFieldStmt
    }
}

impl FromId for CreateExtensionCommandsBlock {
    open spec fn has_production(id: usize) -> bool {
        761 <= id <= 763
    }

    open spec fn production_id(self) -> usize {
        match self {
            Self::LBRACE_CreateExtensionCommandsList_OptSemicolons_RBRACE => 761,
            Self::LBRACE_OptSemicolons_RBRACE => 762,
            Self::LBRACE_Semicolons_CreateExtensionCommandsList_OptSemicolons_RBRACE => 763,
        }
    }

    fn from_id(id: usize) -> Self {
        match id {
            761 => Self::LBRACE_CreateExtensionCommandsList_OptSemicolons_RBRACE,
            762 => Self::LBRACE_OptSemicolons_RBRACE,
            _ => Self::LBRACE_Semicolons_CreateExtensionCommandsList_OptSemicolons_RBRACE,
        }
    }
}

impl FromId for CreateExtensionCommandsList {
    open spec fn has_production(id: usize) -> bool {
        764 <= id <= 765
    }

    open spec fn production_id(self) -> usize {
        match self {
            Self::CreateExtensionCommand => 764,
            Self::CreateExtensionCommandsList_Semicolons_CreateExtensionCommand => 765,
        }
    }

    fn from_id(id: usize) -> Self {
        match id {
            764 => Self::CreateExtensionCommand,
            _ => Self::CreateExtensionCommandsList_Semicolons_CreateExtensionCommand,
        }
    }
}

impl FromId for CreateExtensionPackageCommand {
    open spec fn has_production(id: usize) -> bool {
        id == 766
    }

    open spec fn production_id(self) -> usize {
        match self {
            Self::NestedQLBlockStmt => 766,
        }
    }

    fn from_id(_id: usize) -> Self {
        Self::NestedQLBlockStmt
    }
}

impl FromId for CreateExtensionPackageCommandsBlock {
    open spec fn has_production(id: usize) -> bool {
        767 <= id <= 769
    }

    open spec fn production_id(self) -> usize {
        match self {
            Self::LBRACE_CreateExtensionPackageCommandsList_OptSemicolons_RBRACE => 767,
            Self::LBRACE_OptSemicolons_RBRACE => 768,
            Self::LBRACE_Semicolons_CreateExtensionPackageCommandsList_OptSemicolons_RBRACE => 769,
        }
    }

    fn from_id(id: usize) -> Self {
        match id {
            767 => Self::LBRACE_CreateExtensionPackageCommandsList_OptSemicolons_RBRACE,
            768 => Self::LBRACE_OptSemicolons_RBRACE,
            _ => Self::LBRACE_Semicolons_CreateExtensionPackageCommandsList_OptSemicolons_RBRACE,
        }
    }
}

impl FromId for CreateExtensionPackageCommandsList {
    open spec fn has_production(id: usize) -> bool {
        770 <= id <= 771
    }

    open spec fn production_id(self) -> usize {
        match self {
            Self::CreateExtensionPackageCommand => 770,
            Self::CreateExtensionPackageCommandsList_Semicolons_CreateExtensionPackageCommand => 771,
        }
    }

    fn from_id(id: usize) -> Self {
        match id {
            770 => Self::CreateExtensionPackageCommand,
            _ => Self::CreateExtensionPackageCommandsList_Semicolons_CreateExtensionPackageCommand,
        }
    }
}

impl FromId for CreateExtensionPackageMigrationStmt {
    open spec fn has_production(id: usize) -> bool {
        id == 772
    }

    open spec fn production_id(self) -> usize {
        match self {
            Self::CREATE_EXTENSIONPACKAGE_ShortNodeName_MIGRATION_FROM_ExtensionVersion_TO_ExtensionVersion_OptCreateExtensionPackageCommandsBlock => 772,
        }
    }

    fn from_id(_id: usize) -> Self {
        Self::CREATE_EXTENSIONPACKAGE_ShortNodeName_MIGRATION_FROM_ExtensionVersion_TO_ExtensionVersion_OptCreateExtensionPackageCommandsBlock
    }
}

impl FromId for CreateExtensionPackageStmt {
    open spec fn has_production(id: usize) -> bool {
        id == 773
    }

    open spec fn production_id(self) -> usize {
        match self {
            Self::CREATE_EXTENSIONPACKAGE_ShortNodeName_ExtensionVersion_OptCreateExtensionPackageCommandsBlock => 773,
        }
    }

    fn from_id(_id: usize) -> Self {
        Self::CREATE_EXTENSIONPACKAGE_ShortNodeName_ExtensionVersion_OptCreateExtensionPackageCommandsBlock
    }
}

impl FromId for CreateExtensionStmt {
    open spec fn has_production(id: usize) -> bool {
        id == 774
    }

    open spec fn production_id(self) -> usize {
        match self {
            Self::CREATE_EXTENSION_ShortNodeName_OptExtensionVersion_OptCreateExtensionCommandsBlock => 774,
        }
    }

    fn from_id(_id: usize) -> Self {
        Self::CREATE_EXTENSION_ShortNodeName_OptExtensionVersion_OptCreateExtensionCommandsBlock
    }
}

impl FromId for CreateFunctionArgs {
    open spec fn has_production(id: usize) -> bool {
        775 <= id <= 776
    }

    open spec fn production_id(self) -> usize {
        match self {
            Self::LPAREN_FuncDeclArgs_RPAREN => 775,
            Self::LPAREN_RPAREN => 776,
        }
    }

    fn from_id(id: usize) -> Self {
        match id {
            775 => Self::LPAREN_FuncDeclArgs_RPAREN,
            _ => Self::LPAREN_RPAREN,
        }
    }
}

impl FromId for CreateFunctionCommand {
    open spec fn has_production(id: usize) -> bool {
        777 <= id <= 780
    }

    open spec fn production_id(self) -> usize {
        match self {
            Self::AlterAnnotationValueStmt => 777,
            Self::CreateAnnotationValueStmt => 778,
            Self::FromFunction => 779,
            Self::SetFieldStmt => 780,
        }
    }

    fn from_id(id: usize) -> Self {
        match id {
            777 => Self::AlterAnnotationValueStmt,
            778 => Self::CreateAnnotationValueStmt,
            779 => Self::FromFunction,
            _ => Self::SetFieldStmt,
        }
    }
}

impl FromId for CreateFunctionCommandsBlock {
    open spec fn has_production(id: usize) -> bool {
        781 <= id <= 784
    }

    open spec fn production_id(self) -> usize {
        match self {
            Self::CreateFunctionCommand => 781,
            Self::LBRACE_CreateFunctionCommandsList_OptSemicolons_RBRACE => 782,
            Self::LBRACE_OptSemicolons_RBRACE => 783,
            Self::LBRACE_Semicolons_CreateFunctionCommandsList_OptSemicolons_RBRACE => 784,
        }
    }

    fn from_id(id: usize) -> Self {
        match id {
            781 => Self::CreateFunctionCommand,
            782 => Self::LBRACE_CreateFunctionCommandsList_OptSemicolons_RBRACE,
            783 => Self::LBRACE_OptSemicolons_RBRACE,
            _ => Self::LBRACE_Semicolons_CreateFunctionCommandsList_OptSemicolons_RBRACE,
        }
    }
}

impl FromId for CreateFunctionCommandsList {
    open spec fn has_production(id: usize) -> bool {
        785 <= id <= 786
    }

    open spec fn production_id(self) -> usize {
        match self {
            Self::CreateFunctionCommand => 785,
            Self::CreateFunctionCommandsList_Semicolons_CreateFunctionCommand => 786,
        }
    }

    fn from_id(id: usize) -> Self {
        match id {
            785 => Self::CreateFunctionCommand,
            _ => Self::CreateFunctionCommandsList_Semicolons_CreateFunctionCommand,
        }
    }
}

impl FromId for CreateFunctionSDLCommandFull {
    open spec fn has_production(id: usize) -> bool {
        id == 788
    }

    open spec fn production_id(self) -> usize {
        match self {
            Self::CreateFunctionSDLCommandShort_SEMICOLON => 788,
        }
    }

    fn from_id(_id: usize) -> Self {
        Self::CreateFunctionSDLCommandShort_SEMICOLON
    }
}

impl FromId for CreateFunctionSDLCommandShort {
    open spec fn has_production(id: usize) -> bool {
        789 <= id <= 791
    }

    open spec fn production_id(self) -> usize {
        match self {
            Self::FromFunction => 789,
            Self::SetAnnotation => 790,
            Self::SetField => 791,
        }
    }

    fn from_id(id: usize) -> Self {
        match id {
            789 => Self::FromFunction,
            790 => Self::SetAnnotation,
            _ => Self::SetField,
        }
    }
}

impl FromId for CreateFunctionSDLCommandsBlock {
    open spec fn has_production(id: usize) -> bool {
        792 <= id <= 795
    }

    open spec fn production_id(self) -> usize {
        match self {
            Self::LBRACE_OptSemicolons_CreateFunctionSDLCommandShort_RBRACE => 792,
            Self::LBRACE_OptSemicolons_CreateFunctionSDLCommandsList_OptSemicolons_CreateFunctionSDLCommandShort_RBRACE => 793,
            Self::LBRACE_OptSemicolons_CreateFunctionSDLCommandsList_OptSemicolons_RBRACE => 794,
            Self::LBRACE_OptSemicolons_RBRACE => 795,
        }
    }

    fn from_id(id: usize) -> Self {
        match id {
            792 => Self::LBRACE_OptSemicolons_CreateFunctionSDLCommandShort_RBRACE,
            793 => Self::LBRACE_OptSemicolons_CreateFunctionSDLCommandsList_OptSemicolons_CreateFunctionSDLCommandShort_RBRACE,
            794 => Self::LBRACE_OptSemicolons_CreateFunctionSDLCommandsList_OptSemicolons_RBRACE,
            _ => Self::LBRACE_OptSemicolons_RBRACE,
        }
    }
}

impl FromId for CreateFunctionSDLCommandsList {
    open spec fn has_production(id: usize) -> bool {
        796 <= id <= 797
    }

    open spec fn production_id(self) -> usize {
        match self {
            Self::CreateFunctionSDLCommandFull => 796,
            Self::CreateFunctionSDLCommandsList_OptSemicolons_CreateFunctionSDLCommandFull => 797,
        }
    }

    fn from_id(id: usize) -> Self {
        match id {
            796 => Self::CreateFunctionSDLCommandFull,
            _ => Self::CreateFunctionSDLCommandsList_OptSemicolons_CreateFunctionSDLCommandFull,
        }
    }
}

impl FromId for CreateFunctionSingleSDLCommandBlock {
    open spec fn has_production(id: usize) -> bool {
        id == 799
    }

    open spec fn production_id(self) -> usize {
        match self {
            Self::CreateFunctionSDLCommandShort => 799,
        }
    }

    fn from_id(_id: usize) -> Self {
        Self::CreateFunctionSDLCommandShort
    }
}

impl FromId for CreateFunctionStmt {
    open spec fn has_production(id: usize) -> bool {
        id == 800
    }

    open spec fn production_id(self) -> usize {
        match self {
            Self::CREATE_FUNCTION_NodeName_CreateFunctionArgs_ARROW_OptTypeQualifier_FunctionType_CreateFunctionCommandsBlock => 800,
        }
    }

    fn from_id(_id: usize) -> Self {
        Self::CREATE_FUNCTION_NodeName_CreateFunctionArgs_ARROW_OptTypeQualifier_FunctionType_CreateFunctionCommandsBlock
    }
}

impl FromId for CreateFutureStmt {
    open spec fn has_production(id: usize) -> bool {
        id == 801
    }

    open spec fn production_id(self) -> usize {
        match self {
            Self::CREATE_FUTURE_ShortNodeName => 801,
        }
    }

    fn from_id(_id: usize) -> Self {
        Self::CREATE_FUTURE_ShortNodeName
    }
}

impl FromId for CreateGlobalCommand {
    open spec fn has_production(id: usize) -> bool {
        802 <= id <= 804
    }

    open spec fn production_id(self) -> usize {
        match self {
            Self::CreateAnnotationValueStmt => 802,
            Self::SetFieldStmt => 803,
            Self::UsingStmt => 804,
        }
    }

    fn from_id(id: usize) -> Self {
        match id {
            802 => Self::CreateAnnotationValueStmt,
            803 => Self::SetFieldStmt,
            _ => Self::UsingStmt,
        }
    }
}

impl FromId for CreateGlobalCommandsBlock {
    open spec fn has_production(id: usize) -> bool {
        805 <= id <= 807
    }

    open spec fn production_id(self) -> usize {
        match self {
            Self::LBRACE_CreateGlobalCommandsList_OptSemicolons_RBRACE => 805,
            Self::LBRACE_OptSemicolons_RBRACE => 806,
            Self::LBRACE_Semicolons_CreateGlobalCommandsList_OptSemicolons_RBRACE => 807,
        }
    }

    fn from_id(id: usize) -> Self {
        match id {
            805 => Self::LBRACE_CreateGlobalCommandsList_OptSemicolons_RBRACE,
            806 => Self::LBRACE_OptSemicolons_RBRACE,
            _ => Self::LBRACE_Semicolons_CreateGlobalCommandsList_OptSemicolons_RBRACE,
        }
    }
}

impl FromId for CreateGlobalCommandsList {
    open spec fn has_production(id: usize) -> bool {
        808 <= id <= 809
    }

    open spec fn production_id(self) -> usize {
        match self {
            Self::CreateGlobalCommand => 808,
            Self::CreateGlobalCommandsList_Semicolons_CreateGlobalCommand => 809,
        }
    }

    fn from_id(id: usize) -> Self {
        match id {
            808 => Self::CreateGlobalCommand,
            _ => Self::CreateGlobalCommandsList_Semicolons_CreateGlobalCommand,
        }
    }
}

impl FromId for CreateGlobalSDLCommandFull {
    open spec fn has_production(id: usize) -> bool {
        id == 811
    }

    open spec fn production_id(self) -> usize {
        match self {
            Self::CreateGlobalSDLCommandShort_SEMICOLON => 811,
        }
    }

    fn from_id(_id: usize) -> Self {
        Self::CreateGlobalSDLCommandShort_SEMICOLON
    }
}

impl FromId for CreateGlobalSDLCommandShort {
    open spec fn has_production(id: usize) -> bool {
        812 <= id <= 814
    }

    open spec fn production_id(self) -> usize {
        match self {
            Self::SetAnnotation => 812,
            Self::SetField => 813,
            Self::Using => 814,
        }
    }

    fn from_id(id: usize) -> Self {
        match id {
            812 => Self::SetAnnotation,
            813 => Self::SetField,
            _ => Self::Using,
        }
    }
}

impl FromId for CreateGlobalSDLCommandsBlock {
    open spec fn has_production(id: usize) -> bool {
        815 <= id <= 818
    }

    open spec fn production_id(self) -> usize {
        match self {
            Self::LBRACE_OptSemicolons_CreateGlobalSDLCommandShort_RBRACE => 815,
            Self::LBRACE_OptSemicolons_CreateGlobalSDLCommandsList_OptSemicolons_CreateGlobalSDLCommandShort_RBRACE => 816,
            Self::LBRACE_OptSemicolons_CreateGlobalSDLCommandsList_OptSemicolons_RBRACE => 817,
            Self::LBRACE_OptSemicolons_RBRACE => 818,
        }
    }

    fn from_id(id: usize) -> Self {
        match id {
            815 => Self::LBRACE_OptSemicolons_CreateGlobalSDLCommandShort_RBRACE,
            816 => Self::LBRACE_OptSemicolons_CreateGlobalSDLCommandsList_OptSemicolons_CreateGlobalSDLCommandShort_RBRACE,
            817 => Self::LBRACE_OptSemicolons_CreateGlobalSDLCommandsList_OptSemicolons_RBRACE,
            _ => Self::LBRACE_OptSemicolons_RBRACE,
        }
    }
}

impl FromId for CreateGlobalSDLCommandsList {
    open spec fn has_production(id: usize) -> bool {
        819 <= id <= 820
    }

    open spec fn production_id(self) -> usize {
        match self {
            Self::CreateGlobalSDLCommandFull => 819,
            Self::CreateGlobalSDLCommandsList_OptSemicolons_CreateGlobalSDLCommandFull => 820,
        }
    }

    fn from_id(id: usize) -> Self {
        match id {
            819 => Self::CreateGlobalSDLCommandFull,
            _ => Self::CreateGlobalSDLCommandsList_OptSemicolons_CreateGlobalSDLCommandFull,
        }
    }
}

impl FromId for CreateGlobalStmt {
    open spec fn has_production(id: usize) -> bool {
        821 <= id <= 824
    }

    open spec fn production_id(self) -> usize {
        match self {
            Self::CREATE_OptPtrQuals_GLOBAL_NodeName_ASSIGN_GenExpr => 821,
            Self::CREATE_OptPtrQuals_GLOBAL_NodeName_OptCreateConcretePropertyCommandsBlock => 822,
            Self::CREATE_OptPtrQuals_GLOBAL_NodeName_ARROW_FullTypeExpr_OptCreateGlobalCommandsBlock => 823,
            Self::CREATE_OptPtrQuals_GLOBAL_NodeName_COLON_FullTypeExpr_OptCreateGlobalCommandsBlock => 824,
        }
    }

    fn from_id(id: usize) -> Self {
        match id {
            821 => Self::CREATE_OptPtrQuals_GLOBAL_NodeName_ASSIGN_GenExpr,
            822 => Self::CREATE_OptPtrQuals_GLOBAL_NodeName_OptCreateConcretePropertyCommandsBlock,
            823 => Self::CREATE_OptPtrQuals_GLOBAL_NodeName_ARROW_FullTypeExpr_OptCreateGlobalCommandsBlock,
            _ => Self::CREATE_OptPtrQuals_GLOBAL_NodeName_COLON_FullTypeExpr_OptCreateGlobalCommandsBlock,
        }
    }
}

impl FromId for CreateIndexCommand {
    open spec fn has_production(id: usize) -> bool {
        825 <= id <= 828
    }

    open spec fn production_id(self) -> usize {
        match self {
            Self::AlterAnnotationValueStmt => 825,
            Self::CreateAnnotationValueStmt => 826,
            Self::SetFieldStmt => 827,
            Self::UsingStmt => 828,
        }
    }

    fn from_id(id: usize) -> Self {
        match id {
            825 => Self::AlterAnnotationValueStmt,
            826 => Self::CreateAnnotationValueStmt,
            827 => Self::SetFieldStmt,
            _ => Self::UsingStmt,
        }
    }
}

impl FromId for CreateIndexCommandsBlock {
    open spec fn has_production(id: usize) -> bool {
        829 <= id <= 831
    }

    open spec fn production_id(self) -> usize {
        match self {
            Self::LBRACE_CreateIndexCommandsList_OptSemicolons_RBRACE => 829,
            Self::LBRACE_OptSemicolons_RBRACE => 830,
            Self::LBRACE_Semicolons_CreateIndexCommandsList_OptSemicolons_RBRACE => 831,
        }
    }

    fn from_id(id: usize) -> Self {
        match id {
            829 => Self::LBRACE_CreateIndexCommandsList_OptSemicolons_RBRACE,
            830 => Self::LBRACE_OptSemicolons_RBRACE,
            _ => Self::LBRACE_Semicolons_CreateIndexCommandsList_OptSemicolons_RBRACE,
        }
    }
}

impl FromId for CreateIndexCommandsList {
    open spec fn has_production(id: usize) -> bool {
        832 <= id <= 833
    }

    open spec fn production_id(self) -> usize {
        match self {
            Self::CreateIndexCommand => 832,
            Self::CreateIndexCommandsList_Semicolons_CreateIndexCommand => 833,
        }
    }

    fn from_id(id: usize) -> Self {
        match id {
            832 => Self::CreateIndexCommand,
            _ => Self::CreateIndexCommandsList_Semicolons_CreateIndexCommand,
        }
    }
}

impl FromId for CreateIndexMatchCommand {
    open spec fn has_production(id: usize) -> bool {
        id == 834
    }

    open spec fn production_id(self) -> usize {
        match self {
            Self::CreateAnnotationValueStmt => 834,
        }
    }

    fn from_id(_id: usize) -> Self {
        Self::CreateAnnotationValueStmt
    }
}

impl FromId for CreateIndexMatchCommandsBlock {
    open spec fn has_production(id: usize) -> bool {
        835 <= id <= 837
    }

    open spec fn production_id(self) -> usize {
        match self {
            Self::LBRACE_CreateIndexMatchCommandsList_OptSemicolons_RBRACE => 835,
            Self::LBRACE_OptSemicolons_RBRACE => 836,
            Self::LBRACE_Semicolons_CreateIndexMatchCommandsList_OptSemicolons_RBRACE => 837,
        }
    }

    fn from_id(id: usize) -> Self {
        match id {
            835 => Self::LBRACE_CreateIndexMatchCommandsList_OptSemicolons_RBRACE,
            836 => Self::LBRACE_OptSemicolons_RBRACE,
            _ => Self::LBRACE_Semicolons_CreateIndexMatchCommandsList_OptSemicolons_RBRACE,
        }
    }
}

impl FromId for CreateIndexMatchCommandsList {
    open spec fn has_production(id: usize) -> bool {
        838 <= id <= 839
    }

    open spec fn production_id(self) -> usize {
        match self {
            Self::CreateIndexMatchCommand => 838,
            Self::CreateIndexMatchCommandsList_Semicolons_CreateIndexMatchCommand => 839,
        }
    }

    fn from_id(id: usize) -> Self {
        match id {
            838 => Self::CreateIndexMatchCommand,
            _ => Self::CreateIndexMatchCommandsList_Semicolons_CreateIndexMatchCommand,
        }
    }
}

impl FromId for CreateIndexMatchStmt {
    open spec fn has_production(id: usize) -> bool {
        id == 840
    }

    open spec fn production_id(self) -> usize {
        match self {
            Self::CREATE_INDEX_MATCH_FOR_TypeName_USING_NodeName_OptCreateIndexMatchCommandsBlock => 840,
        }
    }

    fn from_id(_id: usize) -> Self {
        Self::CREATE_INDEX_MATCH_FOR_TypeName_USING_NodeName_OptCreateIndexMatchCommandsBlock
    }
}

impl FromId for CreateIndexSDLCommandFull {
    open spec fn has_production(id: usize) -> bool {
        id == 842
    }

    open spec fn production_id(self) -> usize {
        match self {
            Self::CreateIndexSDLCommandShort_SEMICOLON => 842,
        }
    }

    fn from_id(_id: usize) -> Self {
        Self::CreateIndexSDLCommandShort_SEMICOLON
    }
}

impl FromId for CreateIndexSDLCommandShort {
    open spec fn has_production(id: usize) -> bool {
        843 <= id <= 845
    }

    open spec fn production_id(self) -> usize {
        match self {
            Self::SetAnnotation => 843,
            Self::SetField => 844,
            Self::Using => 845,
        }
    }

    fn from_id(id: usize) -> Self {
        match id {
            843 => Self::SetAnnotation,
            844 => Self::SetField,
            _ => Self::Using,
        }
    }
}

impl FromId for CreateIndexSDLCommandsBlock {
    open spec fn has_production(id: usize) -> bool {
        846 <= id <= 849
    }

    open spec fn production_id(self) -> usize {
        match self {
            Self::LBRACE_OptSemicolons_CreateIndexSDLCommandShort_RBRACE => 846,
            Self::LBRACE_OptSemicolons_CreateIndexSDLCommandsList_OptSemicolons_CreateIndexSDLCommandShort_RBRACE => 847,
            Self::LBRACE_OptSemicolons_CreateIndexSDLCommandsList_OptSemicolons_RBRACE => 848,
            Self::LBRACE_OptSemicolons_RBRACE => 849,
        }
    }

    fn from_id(id: usize) -> Self {
        match id {
            846 => Self::LBRACE_OptSemicolons_CreateIndexSDLCommandShort_RBRACE,
            847 => Self::LBRACE_OptSemicolons_CreateIndexSDLCommandsList_OptSemicolons_CreateIndexSDLCommandShort_RBRACE,
            848 => Self::LBRACE_OptSemicolons_CreateIndexSDLCommandsList_OptSemicolons_RBRACE,
            _ => Self::LBRACE_OptSemicolons_RBRACE,
        }
    }
}

impl FromId for CreateIndexSDLCommandsList {
    open spec fn has_production(id: usize) -> bool {
        850 <= id <= 851
    }

    open spec fn production_id(self) -> usize {
        match self {
            Self::CreateIndexSDLCommandFull => 850,
            Self::CreateIndexSDLCommandsList_OptSemicolons_CreateIndexSDLCommandFull => 851,
        }
    }

    fn from_id(id: usize) -> Self {
        match id {
            850 => Self::CreateIndexSDLCommandFull,
            _ => Self::CreateIndexSDLCommandsList_OptSemicolons_CreateIndexSDLCommandFull,
        }
    }
}

impl FromId for CreateIndexStmt {
    open spec fn has_production(id: usize) -> bool {
        852 <= id <= 853
    }

    open spec fn production_id(self) -> usize {
        match self {
            Self::CREATE_ABSTRACT_INDEX_NodeName_OptExtendingSimple_OptCreateIndexCommandsBlock => 852,
            Self::CREATE_ABSTRACT_INDEX_NodeName_IndexExtArgList_OptExtendingSimple_OptCreateIndexCommandsBlock => 853,
        }
    }

    fn from_id(id: usize) -> Self {
        match id {
            852 => Self::CREATE_ABSTRACT_INDEX_NodeName_OptExtendingSimple_OptCreateIndexCommandsBlock,
            _ => Self::CREATE_ABSTRACT_INDEX_NodeName_IndexExtArgList_OptExtendingSimple_OptCreateIndexCommandsBlock,
        }
    }
}

impl FromId for CreateLinkCommand {
    open spec fn has_production(id: usize) -> bool {
        854 <= id <= 861
    }

    open spec fn production_id(self) -> usize {
        match self {
            Self::AlterAnnotationValueStmt => 854,
            Self::CreateAnnotationValueStmt => 855,
            Self::CreateConcreteConstraintStmt => 856,
            Self::CreateConcreteIndexStmt => 857,
            Self::CreateConcretePropertyStmt => 858,
            Self::CreateRewriteStmt => 859,
            Self::CreateSimpleExtending => 860,
            Self::SetFieldStmt => 861,
        }
    }

    fn from_id(id: usize) -> Self {
        match id {
            854 => Self::AlterAnnotationValueStmt,
            855 => Self::CreateAnnotationValueStmt,
            856 => Self::CreateConcreteConstraintStmt,
            857 => Self::CreateConcreteIndexStmt,
            858 => Self::CreateConcretePropertyStmt,
            859 => Self::CreateRewriteStmt,
            860 => Self::CreateSimpleExtending,
            _ => Self::SetFieldStmt,
        }
    }
}

impl FromId for CreateLinkCommandsBlock {
    open spec fn has_production(id: usize) -> bool {
        862 <= id <= 864
    }

    open spec fn production_id(self) -> usize {
        match self {
            Self::LBRACE_CreateLinkCommandsList_OptSemicolons_RBRACE => 862,
            Self::LBRACE_OptSemicolons_RBRACE => 863,
            Self::LBRACE_Semicolons_CreateLinkCommandsList_OptSemicolons_RBRACE => 864,
        }
    }

    fn from_id(id: usize) -> Self {
        match id {
            862 => Self::LBRACE_CreateLinkCommandsList_OptSemicolons_RBRACE,
            863 => Self::LBRACE_OptSemicolons_RBRACE,
            _ => Self::LBRACE_Semicolons_CreateLinkCommandsList_OptSemicolons_RBRACE,
        }
    }
}

impl FromId for CreateLinkCommandsList {
    open spec fn has_production(id: usize) -> bool {
        865 <= id <= 866
    }

    open spec fn production_id(self) -> usize {
        match self {
            Self::CreateLinkCommand => 865,
            Self::CreateLinkCommandsList_Semicolons_CreateLinkCommand => 866,
        }
    }

    fn from_id(id: usize) -> Self {
        match id {
            865 => Self::CreateLinkCommand,
            _ => Self::CreateLinkCommandsList_Semicolons_CreateLinkCommand,
        }
    }
}

impl FromId for CreateLinkSDLCommandBlock {
    open spec fn has_production(id: usize) -> bool {
        867 <= id <= 871
    }

    open spec fn production_id(self) -> usize {
        match self {
            Self::ConcreteConstraintBlock => 867,
            Self::ConcreteIndexDeclarationBlock => 868,
            Self::ConcretePropertyBlock => 869,
            Self::ConcreteUnknownPointerBlock => 870,
            Self::RewriteDeclarationBlock => 871,
        }
    }

    fn from_id(id: usize) -> Self {
        match id {
            867 => Self::ConcreteConstraintBlock,
            868 => Self::ConcreteIndexDeclarationBlock,
            869 => Self::ConcretePropertyBlock,
            870 => Self::ConcreteUnknownPointerBlock,
            _ => Self::RewriteDeclarationBlock,
        }
    }
}

impl FromId for CreateLinkSDLCommandFull {
    open spec fn has_production(id: usize) -> bool {
        872 <= id <= 873
    }

    open spec fn production_id(self) -> usize {
        match self {
            Self::CreateLinkSDLCommandBlock => 872,
            Self::CreateLinkSDLCommandShort_SEMICOLON => 873,
        }
    }

    fn from_id(id: usize) -> Self {
        match id {
            872 => Self::CreateLinkSDLCommandBlock,
            _ => Self::CreateLinkSDLCommandShort_SEMICOLON,
        }
    }
}

impl FromId for CreateLinkSDLCommandShort {
    open spec fn has_production(id: usize) -> bool {
        874 <= id <= 881
    }

    open spec fn production_id(self) -> usize {
        match self {
            Self::ConcreteConstraintShort => 874,
            Self::ConcreteIndexDeclarationShort => 875,
            Self::ConcretePropertyShort => 876,
            Self::ConcreteUnknownPointerShort => 877,
            Self::CreateSimpleExtending => 878,
            Self::RewriteDeclarationShort => 879,
            Self::SetAnnotation => 880,
            Self::SetField => 881,
        }
    }

    fn from_id(id: usize) -> Self {
        match id {
            874 => Self::ConcreteConstraintShort,
            875 => Self::ConcreteIndexDeclarationShort,
            876 => Self::ConcretePropertyShort,
            877 => Self::ConcreteUnknownPointerShort,
            878 => Self::CreateSimpleExtending,
            879 => Self::RewriteDeclarationShort,
            880 => Self::SetAnnotation,
            _ => Self::SetField,
        }
    }
}

impl FromId for CreateLinkSDLCommandsBlock {
    open spec fn has_production(id: usize) -> bool {
        882 <= id <= 885
    }

    open spec fn production_id(self) -> usize {
        match self {
            Self::LBRACE_OptSemicolons_CreateLinkSDLCommandShort_RBRACE => 882,
            Self::LBRACE_OptSemicolons_CreateLinkSDLCommandsList_OptSemicolons_CreateLinkSDLCommandShort_RBRACE => 883,
            Self::LBRACE_OptSemicolons_CreateLinkSDLCommandsList_OptSemicolons_RBRACE => 884,
            Self::LBRACE_OptSemicolons_RBRACE => 885,
        }
    }

    fn from_id(id: usize) -> Self {
        match id {
            882 => Self::LBRACE_OptSemicolons_CreateLinkSDLCommandShort_RBRACE,
            883 => Self::LBRACE_OptSemicolons_CreateLinkSDLCommandsList_OptSemicolons_CreateLinkSDLCommandShort_RBRACE,
            884 => Self::LBRACE_OptSemicolons_CreateLinkSDLCommandsList_OptSemicolons_RBRACE,
            _ => Self::LBRACE_OptSemicolons_RBRACE,
        }
    }
}

impl FromId for CreateLinkSDLCommandsList {
    open spec fn has_production(id: usize) -> bool {
        886 <= id <= 887
    }

    open spec fn production_id(self) -> usize {
        match self {
            Self::CreateLinkSDLCommandFull => 886,
            Self::CreateLinkSDLCommandsList_OptSemicolons_CreateLinkSDLCommandFull => 887,
        }
    }

    fn from_id(id: usize) -> Self {
        match id {
            886 => Self::CreateLinkSDLCommandFull,
            _ => Self::CreateLinkSDLCommandsList_OptSemicolons_CreateLinkSDLCommandFull,
        }
    }
}

impl FromId for CreateLinkStmt {
    open spec fn has_production(id: usize) -> bool {
        id == 888
    }

    open spec fn production_id(self) -> usize {
        match self {
            Self::CREATE_ABSTRACT_LINK_PtrNodeName_OptExtendingSimple_OptCreateLinkCommandsBlock => 888,
        }
    }

    fn from_id(_id: usize) -> Self {
        Self::CREATE_ABSTRACT_LINK_PtrNodeName_OptExtendingSimple_OptCreateLinkCommandsBlock
    }
}

impl FromId for CreateMigrationCommand {
    open spec fn has_production(id: usize) -> bool {
        id == 889
    }

    open spec fn production_id(self) -> usize {
        match self {
            Self::NestedQLBlockStmt => 889,
        }
    }

    fn from_id(_id: usize) -> Self {
        Self::NestedQLBlockStmt
    }
}

impl FromId for CreateMigrationCommandsBlock {
    open spec fn has_production(id: usize) -> bool {
        890 <= id <= 892
    }

    open spec fn production_id(self) -> usize {
        match self {
            Self::LBRACE_CreateMigrationCommandsList_OptSemicolons_RBRACE => 890,
            Self::LBRACE_OptSemicolons_RBRACE => 891,
            Self::LBRACE_Semicolons_CreateMigrationCommandsList_OptSemicolons_RBRACE => 892,
        }
    }

    fn from_id(id: usize) -> Self {
        match id {
            890 => Self::LBRACE_CreateMigrationCommandsList_OptSemicolons_RBRACE,
            891 => Self::LBRACE_OptSemicolons_RBRACE,
            _ => Self::LBRACE_Semicolons_CreateMigrationCommandsList_OptSemicolons_RBRACE,
        }
    }
}

impl FromId for CreateMigrationCommandsList {
    open spec fn has_production(id: usize) -> bool {
        893 <= id <= 894
    }

    open spec fn production_id(self) -> usize {
        match self {
            Self::CreateMigrationCommand => 893,
            Self::CreateMigrationCommandsList_Semicolons_CreateMigrationCommand => 894,
        }
    }

    fn from_id(id: usize) -> Self {
        match id {
            893 => Self::CreateMigrationCommand,
            _ => Self::CreateMigrationCommandsList_Semicolons_CreateMigrationCommand,
        }
    }
}

impl FromId for CreateMigrationStmt {
    open spec fn has_production(id: usize) -> bool {
        895 <= id <= 896
    }

    open spec fn production_id(self) -> usize {
        match self {
            Self::CREATE_APPLIED_MIGRATION_OptMigrationNameParentName_OptCreateMigrationCommandsBlock => 895,
            Self::CREATE_MIGRATION_OptMigrationNameParentName_OptCreateMigrationCommandsBlock => 896,
        }
    }

    fn from_id(id: usize) -> Self {
        match id {
            895 => Self::CREATE_APPLIED_MIGRATION_OptMigrationNameParentName_OptCreateMigrationCommandsBlock,
            _ => Self::CREATE_MIGRATION_OptMigrationNameParentName_OptCreateMigrationCommandsBlock,
        }
    }
}

impl FromId for CreateModuleStmt {
    open spec fn has_production(id: usize) -> bool {
        id == 897
    }

    open spec fn production_id(self) -> usize {
        match self {
            Self::CREATE_MODULE_ModuleName_OptIfNotExists_OptCreateCommandsBlock => 897,
        }
    }

    fn from_id(_id: usize) -> Self {
        Self::CREATE_MODULE_ModuleName_OptIfNotExists_OptCreateCommandsBlock
    }
}

impl FromId for CreateObjectTypeCommand {
    open spec fn has_production(id: usize) -> bool {
        898 <= id <= 912
    }

    open spec fn production_id(self) -> usize {
        match self {
            Self::AlterAccessPolicyStmt => 898,
            Self::AlterAnnotationValueStmt => 899,
            Self::AlterConcreteConstraintStmt => 900,
            Self::AlterConcreteIndexStmt => 901,
            Self::AlterConcreteLinkStmt => 902,
            Self::AlterConcretePropertyStmt => 903,
            Self::AlterTriggerStmt => 904,
            Self::CreateAccessPolicyStmt => 905,
            Self::CreateAnnotationValueStmt => 906,
            Self::CreateConcreteConstraintStmt => 907,
            Self::CreateConcreteIndexStmt => 908,
            Self::CreateConcreteLinkStmt => 909,
            Self::CreateConcretePropertyStmt => 910,
            Self::CreateTriggerStmt => 911,
            Self::SetFieldStmt => 912,
        }
    }

    fn from_id(id: usize) -> Self {
        match id {
            898 => Self::AlterAccessPolicyStmt,
            899 => Self::AlterAnnotationValueStmt,
            900 => Self::AlterConcreteConstraintStmt,
            901 => Self::AlterConcreteIndexStmt,
            902 => Self::AlterConcreteLinkStmt,
            903 => Self::AlterConcretePropertyStmt,
            904 => Self::AlterTriggerStmt,
            905 => Self::CreateAccessPolicyStmt,
            906 => Self::CreateAnnotationValueStmt,
            907 => Self::CreateConcreteConstraintStmt,
            908 => Self::CreateConcreteIndexStmt,
            909 => Self::CreateConcreteLinkStmt,
            910 => Self::CreateConcretePropertyStmt,
            911 => Self::CreateTriggerStmt,
            _ => Self::SetFieldStmt,
        }
    }
}

impl FromId for CreateObjectTypeCommandsBlock {
    open spec fn has_production(id: usize) -> bool {
        913 <= id <= 915
    }

    open spec fn production_id(self) -> usize {
        match self {
            Self::LBRACE_CreateObjectTypeCommandsList_OptSemicolons_RBRACE => 913,
            Self::LBRACE_OptSemicolons_RBRACE => 914,
            Self::LBRACE_Semicolons_CreateObjectTypeCommandsList_OptSemicolons_RBRACE => 915,
        }
    }

    fn from_id(id: usize) -> Self {
        match id {
            913 => Self::LBRACE_CreateObjectTypeCommandsList_OptSemicolons_RBRACE,
            914 => Self::LBRACE_OptSemicolons_RBRACE,
            _ => Self::LBRACE_Semicolons_CreateObjectTypeCommandsList_OptSemicolons_RBRACE,
        }
    }
}

impl FromId for CreateObjectTypeCommandsList {
    open spec fn has_production(id: usize) -> bool {
        916 <= id <= 917
    }

    open spec fn production_id(self) -> usize {
        match self {
            Self::CreateObjectTypeCommand => 916,
            Self::CreateObjectTypeCommandsList_Semicolons_CreateObjectTypeCommand => 917,
        }
    }

    fn from_id(id: usize) -> Self {
        match id {
            916 => Self::CreateObjectTypeCommand,
            _ => Self::CreateObjectTypeCommandsList_Semicolons_CreateObjectTypeCommand,
        }
    }
}

impl FromId for CreateObjectTypeSDLCommandBlock {
    open spec fn has_production(id: usize) -> bool {
        918 <= id <= 924
    }

    open spec fn production_id(self) -> usize {
        match self {
            Self::AccessPolicyDeclarationBlock => 918,
            Self::ConcreteConstraintBlock => 919,
            Self::ConcreteIndexDeclarationBlock => 920,
            Self::ConcreteLinkBlock => 921,
            Self::ConcretePropertyBlock => 922,
            Self::ConcreteUnknownPointerBlock => 923,
            Self::TriggerDeclarationBlock => 924,
        }
    }

    fn from_id(id: usize) -> Self {
        match id {
            918 => Self::AccessPolicyDeclarationBlock,
            919 => Self::ConcreteConstraintBlock,
            920 => Self::ConcreteIndexDeclarationBlock,
            921 => Self::ConcreteLinkBlock,
            922 => Self::ConcretePropertyBlock,
            923 => Self::ConcreteUnknownPointerBlock,
            _ => Self::TriggerDeclarationBlock,
        }
    }
}

impl FromId for CreateObjectTypeSDLCommandFull {
    open spec fn has_production(id: usize) -> bool {
        925 <= id <= 926
    }

    open spec fn production_id(self) -> usize {
        match self {
            Self::CreateObjectTypeSDLCommandBlock => 925,
            Self::CreateObjectTypeSDLCommandShort_SEMICOLON => 926,
        }
    }

    fn from_id(id: usize) -> Self {
        match id {
            925 => Self::CreateObjectTypeSDLCommandBlock,
            _ => Self::CreateObjectTypeSDLCommandShort_SEMICOLON,
        }
    }
}

impl FromId for CreateObjectTypeSDLCommandShort {
    open spec fn has_production(id: usize) -> bool {
        927 <= id <= 935
    }

    open spec fn production_id(self) -> usize {
        match self {
            Self::AccessPolicyDeclarationShort => 927,
            Self::ConcreteConstraintShort => 928,
            Self::ConcreteIndexDeclarationShort => 929,
            Self::ConcreteLinkShort => 930,
            Self::ConcretePropertyShort => 931,
            Self::ConcreteUnknownPointerObjectShort => 932,
            Self::ConcreteUnknownPointerShort => 933,
            Self::SetAnnotation => 934,
            Self::TriggerDeclarationShort => 935,
        }
    }

    fn from_id(id: usize) -> Self {
        match id {
            927 => Self::AccessPolicyDeclarationShort,
            928 => Self::ConcreteConstraintShort,
            929 => Self::ConcreteIndexDeclarationShort,
            930 => Self::ConcreteLinkShort,
            931 => Self::ConcretePropertyShort,
            932 => Self::ConcreteUnknownPointerObjectShort,
            933 => Self::ConcreteUnknownPointerShort,
            934 => Self::SetAnnotation,
            _ => Self::TriggerDeclarationShort,
        }
    }
}

impl FromId for CreateObjectTypeSDLCommandsBlock {
    open spec fn has_production(id: usize) -> bool {
        936 <= id <= 939
    }

    open spec fn production_id(self) -> usize {
        match self {
            Self::LBRACE_OptSemicolons_CreateObjectTypeSDLCommandShort_RBRACE => 936,
            Self::LBRACE_OptSemicolons_CreateObjectTypeSDLCommandsList_OptSemicolons_CreateObjectTypeSDLCommandShort_RBRACE => 937,
            Self::LBRACE_OptSemicolons_CreateObjectTypeSDLCommandsList_OptSemicolons_RBRACE => 938,
            Self::LBRACE_OptSemicolons_RBRACE => 939,
        }
    }

    fn from_id(id: usize) -> Self {
        match id {
            936 => Self::LBRACE_OptSemicolons_CreateObjectTypeSDLCommandShort_RBRACE,
            937 => Self::LBRACE_OptSemicolons_CreateObjectTypeSDLCommandsList_OptSemicolons_CreateObjectTypeSDLCommandShort_RBRACE,
            938 => Self::LBRACE_OptSemicolons_CreateObjectTypeSDLCommandsList_OptSemicolons_RBRACE,
            _ => Self::LBRACE_OptSemicolons_RBRACE,
        }
    }
}

impl FromId for CreateObjectTypeSDLCommandsList {
    open spec fn has_production(id: usize) -> bool {
        940 <= id <= 941
    }

    open spec fn production_id(self) -> usize {
        match self {
            Self::CreateObjectTypeSDLCommandFull => 940,
            Self::CreateObjectTypeSDLCommandsList_OptSemicolons_CreateObjectTypeSDLCommandFull => 941,
        }
    }

    fn from_id(id: usize) -> Self {
        match id {
            940 => Self::CreateObjectTypeSDLCommandFull,
            _ => Self::CreateObjectTypeSDLCommandsList_OptSemicolons_CreateObjectTypeSDLCommandFull,
        }
    }
}

impl FromId for CreateObjectTypeStmt {
    open spec fn has_production(id: usize) -> bool {
        942 <= id <= 943
    }

    open spec fn production_id(self) -> usize {
        match self {
            Self::CREATE_ABSTRACT_TYPE_NodeName_OptExtendingSimple_OptCreateObjectTypeCommandsBlock => 942,
            Self::CREATE_TYPE_NodeName_OptExtendingSimple_OptCreateObjectTypeCommandsBlock => 943,
        }
    }

    fn from_id(id: usize) -> Self {
        match id {
            942 => Self::CREATE_ABSTRACT_TYPE_NodeName_OptExtendingSimple_OptCreateObjectTypeCommandsBlock,
            _ => Self::CREATE_TYPE_NodeName_OptExtendingSimple_OptCreateObjectTypeCommandsBlock,
        }
    }
}

impl FromId for CreateOperatorCommand {
    open spec fn has_production(id: usize) -> bool {
        944 <= id <= 947
    }

    open spec fn production_id(self) -> usize {
        match self {
            Self::AlterAnnotationValueStmt => 944,
            Self::CreateAnnotationValueStmt => 945,
            Self::OperatorCode => 946,
            Self::SetFieldStmt => 947,
        }
    }

    fn from_id(id: usize) -> Self {
        match id {
            944 => Self::AlterAnnotationValueStmt,
            945 => Self::CreateAnnotationValueStmt,
            946 => Self::OperatorCode,
            _ => Self::SetFieldStmt,
        }
    }
}

impl FromId for CreateOperatorCommandsBlock {
    open spec fn has_production(id: usize) -> bool {
        948 <= id <= 951
    }

    open spec fn production_id(self) -> usize {
        match self {
            Self::CreateOperatorCommand => 948,
            Self::LBRACE_CreateOperatorCommandsList_OptSemicolons_RBRACE => 949,
            Self::LBRACE_OptSemicolons_RBRACE => 950,
            Self::LBRACE_Semicolons_CreateOperatorCommandsList_OptSemicolons_RBRACE => 951,
        }
    }

    fn from_id(id: usize) -> Self {
        match id {
            948 => Self::CreateOperatorCommand,
            949 => Self::LBRACE_CreateOperatorCommandsList_OptSemicolons_RBRACE,
            950 => Self::LBRACE_OptSemicolons_RBRACE,
            _ => Self::LBRACE_Semicolons_CreateOperatorCommandsList_OptSemicolons_RBRACE,
        }
    }
}

impl FromId for CreateOperatorCommandsList {
    open spec fn has_production(id: usize) -> bool {
        952 <= id <= 953
    }

    open spec fn production_id(self) -> usize {
        match self {
            Self::CreateOperatorCommand => 952,
            Self::CreateOperatorCommandsList_Semicolons_CreateOperatorCommand => 953,
        }
    }

    fn from_id(id: usize) -> Self {
        match id {
            952 => Self::CreateOperatorCommand,
            _ => Self::CreateOperatorCommandsList_Semicolons_CreateOperatorCommand,
        }
    }
}

impl FromId for CreateOperatorStmt {
    open spec fn has_production(id: usize) -> bool {
        954 <= id <= 955
    }

    open spec fn production_id(self) -> usize {
        match self {
            Self::CREATE_ABSTRACT_OperatorKind_OPERATOR_NodeName_CreateFunctionArgs_ARROW_OptTypeQualifier_FunctionType_OptCreateOperatorCommandsBlock => 954,
            Self::CREATE_OperatorKind_OPERATOR_NodeName_CreateFunctionArgs_ARROW_OptTypeQualifier_FunctionType_CreateOperatorCommandsBlock => 955,
        }
    }

    fn from_id(id: usize) -> Self {
        match id {
            954 => Self::CREATE_ABSTRACT_OperatorKind_OPERATOR_NodeName_CreateFunctionArgs_ARROW_OptTypeQualifier_FunctionType_OptCreateOperatorCommandsBlock,
            _ => Self::CREATE_OperatorKind_OPERATOR_NodeName_CreateFunctionArgs_ARROW_OptTypeQualifier_FunctionType_CreateOperatorCommandsBlock,
        }
    }
}

impl FromId for CreatePermissionCommand {
    open spec fn has_production(id: usize) -> bool {
        id == 956
    }

    open spec fn production_id(self) -> usize {
        match self {
            Self::CreateAnnotationValueStmt => 956,
        }
    }

    fn from_id(_id: usize) -> Self {
        Self::CreateAnnotationValueStmt
    }
}

impl FromId for CreatePermissionCommandsBlock {
    open spec fn has_production(id: usize) -> bool {
        957 <= id <= 959
    }

    open spec fn production_id(self) -> usize {
        match self {
            Self::LBRACE_CreatePermissionCommandsList_OptSemicolons_RBRACE => 957,
            Self::LBRACE_OptSemicolons_RBRACE => 958,
            Self::LBRACE_Semicolons_CreatePermissionCommandsList_OptSemicolons_RBRACE => 959,
        }
    }

    fn from_id(id: usize) -> Self {
        match id {
            957 => Self::LBRACE_CreatePermissionCommandsList_OptSemicolons_RBRACE,
            958 => Self::LBRACE_OptSemicolons_RBRACE,
            _ => Self::LBRACE_Semicolons_CreatePermissionCommandsList_OptSemicolons_RBRACE,
        }
    }
}

impl FromId for CreatePermissionCommandsList {
    open spec fn has_production(id: usize) -> bool {
        960 <= id <= 961
    }

    open spec fn production_id(self) -> usize {
        match self {
            Self::CreatePermissionCommand => 960,
            Self::CreatePermissionCommandsList_Semicolons_CreatePermissionCommand => 961,
        }
    }

    fn from_id(id: usize) -> Self {
        match id {
            960 => Self::CreatePermissionCommand,
            _ => Self::CreatePermissionCommandsList_Semicolons_CreatePermissionCommand,
        }
    }
}

impl FromId for CreatePermissionSDLCommandFull {
    open spec fn has_production(id: usize) -> bool {
        id == 963
    }

    open spec fn production_id(self) -> usize {
        match self {
            Self::CreatePermissionSDLCommandShort_SEMICOLON => 963,
        }
    }

    fn from_id(_id: usize) -> Self {
        Self::CreatePermissionSDLCommandShort_SEMICOLON
    }
}

impl FromId for CreatePermissionSDLCommandShort {
    open spec fn has_production(id: usize) -> bool {
        id == 964
    }

    open spec fn production_id(self) -> usize {
        match self {
            Self::SetAnnotation => 964,
        }
    }

    fn from_id(_id: usize) -> Self {
        Self::SetAnnotation
    }
}

impl FromId for CreatePermissionSDLCommandsBlock {
    open spec fn has_production(id: usize) -> bool {
        965 <= id <= 968
    }

    open spec fn production_id(self) -> usize {
        match self {
            Self::LBRACE_OptSemicolons_CreatePermissionSDLCommandShort_RBRACE => 965,
            Self::LBRACE_OptSemicolons_CreatePermissionSDLCommandsList_OptSemicolons_CreatePermissionSDLCommandShort_RBRACE => 966,
            Self::LBRACE_OptSemicolons_CreatePermissionSDLCommandsList_OptSemicolons_RBRACE => 967,
            Self::LBRACE_OptSemicolons_RBRACE => 968,
        }
    }

    fn from_id(id: usize) -> Self {
        match id {
            965 => Self::LBRACE_OptSemicolons_CreatePermissionSDLCommandShort_RBRACE,
            966 => Self::LBRACE_OptSemicolons_CreatePermissionSDLCommandsList_OptSemicolons_CreatePermissionSDLCommandShort_RBRACE,
            967 => Self::LBRACE_OptSemicolons_CreatePermissionSDLCommandsList_OptSemicolons_RBRACE,
            _ => Self::LBRACE_OptSemicolons_RBRACE,
        }
    }
}

impl FromId for CreatePermissionSDLCommandsList {
    open spec fn has_production(id: usize) -> bool {
        969 <= id <= 970
    }

    open spec fn production_id(self) -> usize {
        match self {
            Self::CreatePermissionSDLCommandFull => 969,
            Self::CreatePermissionSDLCommandsList_OptSemicolons_CreatePermissionSDLCommandFull => 970,
        }
    }

    fn from_id(id: usize) -> Self {
        match id {
            969 => Self::CreatePermissionSDLCommandFull,
            _ => Self::CreatePermissionSDLCommandsList_OptSemicolons_CreatePermissionSDLCommandFull,
        }
    }
}

impl FromId for CreatePermissionStmt {
    open spec fn has_production(id: usize) -> bool {
        id == 971
    }

    open spec fn production_id(self) -> usize {
        match self {
            Self::CREATE_PERMISSION_NodeName_OptCreatePermissionCommandsBlock => 971,
        }
    }

    fn from_id(_id: usize) -> Self {
        Self::CREATE_PERMISSION_NodeName_OptCreatePermissionCommandsBlock
    }
}

impl FromId for CreatePropertyCommand {
    open spec fn has_production(id: usize) -> bool {
        972 <= id <= 976
    }

    open spec fn production_id(self) -> usize {
        match self {
            Self::AlterAnnotationValueStmt => 972,
            Self::CreateAnnotationValueStmt => 973,
            Self::CreateSimpleExtending => 974,
            Self::SetFieldStmt => 975,
            Self::UsingStmt => 976,
        }
    }

    fn from_id(id: usize) -> Self {
        match id {
            972 => Self::AlterAnnotationValueStmt,
            973 => Self::CreateAnnotationValueStmt,
            974 => Self::CreateSimpleExtending,
            975 => Self::SetFieldStmt,
            _ => Self::UsingStmt,
        }
    }
}

impl FromId for CreatePropertyCommandsBlock {
    open spec fn has_production(id: usize) -> bool {
        977 <= id <= 979
    }

    open spec fn production_id(self) -> usize {
        match self {
            Self::LBRACE_CreatePropertyCommandsList_OptSemicolons_RBRACE => 977,
            Self::LBRACE_OptSemicolons_RBRACE => 978,
            Self::LBRACE_Semicolons_CreatePropertyCommandsList_OptSemicolons_RBRACE => 979,
        }
    }

    fn from_id(id: usize) -> Self {
        match id {
            977 => Self::LBRACE_CreatePropertyCommandsList_OptSemicolons_RBRACE,
            978 => Self::LBRACE_OptSemicolons_RBRACE,
            _ => Self::LBRACE_Semicolons_CreatePropertyCommandsList_OptSemicolons_RBRACE,
        }
    }
}

impl FromId for CreatePropertyCommandsList {
    open spec fn has_production(id: usize) -> bool {
        980 <= id <= 981
    }

    open spec fn production_id(self) -> usize {
        match self {
            Self::CreatePropertyCommand => 980,
            Self::CreatePropertyCommandsList_Semicolons_CreatePropertyCommand => 981,
        }
    }

    fn from_id(id: usize) -> Self {
        match id {
            980 => Self::CreatePropertyCommand,
            _ => Self::CreatePropertyCommandsList_Semicolons_CreatePropertyCommand,
        }
    }
}

impl FromId for CreatePropertySDLCommandFull {
    open spec fn has_production(id: usize) -> bool {
        id == 983
    }

    open spec fn production_id(self) -> usize {
        match self {
            Self::CreatePropertySDLCommandShort_SEMICOLON => 983,
        }
    }

    fn from_id(_id: usize) -> Self {
        Self::CreatePropertySDLCommandShort_SEMICOLON
    }
}

impl FromId for CreatePropertySDLCommandShort {
    open spec fn has_production(id: usize) -> bool {
        984 <= id <= 987
    }

    open spec fn production_id(self) -> usize {
        match self {
            Self::CreateSimpleExtending => 984,
            Self::SetAnnotation => 985,
            Self::SetField => 986,
            Self::Using => 987,
        }
    }

    fn from_id(id: usize) -> Self {
        match id {
            984 => Self::CreateSimpleExtending,
            985 => Self::SetAnnotation,
            986 => Self::SetField,
            _ => Self::Using,
        }
    }
}

impl FromId for CreatePropertySDLCommandsBlock {
    open spec fn has_production(id: usize) -> bool {
        988 <= id <= 991
    }

    open spec fn production_id(self) -> usize {
        match self {
            Self::LBRACE_OptSemicolons_CreatePropertySDLCommandShort_RBRACE => 988,
            Self::LBRACE_OptSemicolons_CreatePropertySDLCommandsList_OptSemicolons_CreatePropertySDLCommandShort_RBRACE => 989,
            Self::LBRACE_OptSemicolons_CreatePropertySDLCommandsList_OptSemicolons_RBRACE => 990,
            Self::LBRACE_OptSemicolons_RBRACE => 991,
        }
    }

    fn from_id(id: usize) -> Self {
        match id {
            988 => Self::LBRACE_OptSemicolons_CreatePropertySDLCommandShort_RBRACE,
            989 => Self::LBRACE_OptSemicolons_CreatePropertySDLCommandsList_OptSemicolons_CreatePropertySDLCommandShort_RBRACE,
            990 => Self::LBRACE_OptSemicolons_CreatePropertySDLCommandsList_OptSemicolons_RBRACE,
            _ => Self::LBRACE_OptSemicolons_RBRACE,
        }
    }
}

impl FromId for CreatePropertySDLCommandsList {
    open spec fn has_production(id: usize) -> bool {
        992 <= id <= 993
    }

    open spec fn production_id(self) -> usize {
        match self {
            Self::CreatePropertySDLCommandFull => 992,
            Self::CreatePropertySDLCommandsList_OptSemicolons_CreatePropertySDLCommandFull => 993,
        }
    }

    fn from_id(id: usize) -> Self {
        match id {
            992 => Self::CreatePropertySDLCommandFull,
            _ => Self::CreatePropertySDLCommandsList_OptSemicolons_CreatePropertySDLCommandFull,
        }
    }
}

impl FromId for CreatePropertyStmt {
    open spec fn has_production(id: usize) -> bool {
        id == 994
    }

    open spec fn production_id(self) -> usize {
        match self {
            Self::CREATE_ABSTRACT_PROPERTY_PtrNodeName_OptExtendingSimple_OptCreatePropertyCommandsBlock => 994,
        }
    }

    fn from_id(_id: usize) -> Self {
        Self::CREATE_ABSTRACT_PROPERTY_PtrNodeName_OptExtendingSimple_OptCreatePropertyCommandsBlock
    }
}

impl FromId for CreatePseudoTypeCommand {
    open spec fn has_production(id: usize) -> bool {
        995 <= id <= 997
    }

    open spec fn production_id(self) -> usize {
        match self {
            Self::AlterAnnotationValueStmt => 995,
            Self::CreateAnnotationValueStmt => 996,
            Self::SetFieldStmt => 997,
        }
    }

    fn from_id(id: usize) -> Self {
        match id {
            995 => Self::AlterAnnotationValueStmt,
            996 => Self::CreateAnnotationValueStmt,
            _ => Self::SetFieldStmt,
        }
    }
}

impl FromId for CreatePseudoTypeCommandsBlock {
    open spec fn has_production(id: usize) -> bool {
        998 <= id <= 1000
    }

    open spec fn production_id(self) -> usize {
        match self {
            Self::LBRACE_CreatePseudoTypeCommandsList_OptSemicolons_RBRACE => 998,
            Self::LBRACE_OptSemicolons_RBRACE => 999,
            Self::LBRACE_Semicolons_CreatePseudoTypeCommandsList_OptSemicolons_RBRACE => 1000,
        }
    }

    fn from_id(id: usize) -> Self {
        match id {
            998 => Self::LBRACE_CreatePseudoTypeCommandsList_OptSemicolons_RBRACE,
            999 => Self::LBRACE_OptSemicolons_RBRACE,
            _ => Self::LBRACE_Semicolons_CreatePseudoTypeCommandsList_OptSemicolons_RBRACE,
        }
    }
}

impl FromId for CreatePseudoTypeCommandsList {
    open spec fn has_production(id: usize) -> bool {
        1001 <= id <= 1002
    }

    open spec fn production_id(self) -> usize {
        match self {
            Self::CreatePseudoTypeCommand => 1001,
            Self::CreatePseudoTypeCommandsList_Semicolons_CreatePseudoTypeCommand => 1002,
        }
    }

    fn from_id(id: usize) -> Self {
        match id {
            1001 => Self::CreatePseudoTypeCommand,
            _ => Self::CreatePseudoTypeCommandsList_Semicolons_CreatePseudoTypeCommand,
        }
    }
}

impl FromId for CreatePseudoTypeStmt {
    open spec fn has_production(id: usize) -> bool {
        id == 1003
    }

    open spec fn production_id(self) -> usize {
        match self {
            Self::CREATE_PSEUDO_TYPE_NodeName_OptCreatePseudoTypeCommandsBlock => 1003,
        }
    }

    fn from_id(_id: usize) -> Self {
        Self::CREATE_PSEUDO_TYPE_NodeName_OptCreatePseudoTypeCommandsBlock
    }
}

impl FromId for CreateRewriteCommand {
    open spec fn has_production(id: usize) -> bool {
        1004 <= id <= 1005
    }

    open spec fn production_id(self) -> usize {
        match self {
            Self::CreateAnnotationValueStmt => 1004,
            Self::SetFieldStmt => 1005,
        }
    }

    fn from_id(id: usize) -> Self {
        match id {
            1004 => Self::CreateAnnotationValueStmt,
            _ => Self::SetFieldStmt,
        }
    }
}

impl FromId for CreateRewriteCommandsBlock {
    open spec fn has_production(id: usize) -> bool {
        1006 <= id <= 1008
    }

    open spec fn production_id(self) -> usize {
        match self {
            Self::LBRACE_CreateRewriteCommandsList_OptSemicolons_RBRACE => 1006,
            Self::LBRACE_OptSemicolons_RBRACE => 1007,
            Self::LBRACE_Semicolons_CreateRewriteCommandsList_OptSemicolons_RBRACE => 1008,
        }
    }

    fn from_id(id: usize) -> Self {
        match id {
            1006 => Self::LBRACE_CreateRewriteCommandsList_OptSemicolons_RBRACE,
            1007 => Self::LBRACE_OptSemicolons_RBRACE,
            _ => Self::LBRACE_Semicolons_CreateRewriteCommandsList_OptSemicolons_RBRACE,
        }
    }
}

impl FromId for CreateRewriteCommandsList {
    open spec fn has_production(id: usize) -> bool {
        1009 <= id <= 1010
    }

    open spec fn production_id(self) -> usize {
        match self {
            Self::CreateRewriteCommand => 1009,
            Self::CreateRewriteCommandsList_Semicolons_CreateRewriteCommand => 1010,
        }
    }

    fn from_id(id: usize) -> Self {
        match id {
            1009 => Self::CreateRewriteCommand,
            _ => Self::CreateRewriteCommandsList_Semicolons_CreateRewriteCommand,
        }
    }
}

impl FromId for CreateRewriteSDLCommandFull {
    open spec fn has_production(id: usize) -> bool {
        id == 1012
    }

    open spec fn production_id(self) -> usize {
        match self {
            Self::CreateRewriteSDLCommandShort_SEMICOLON => 1012,
        }
    }

    fn from_id(_id: usize) -> Self {
        Self::CreateRewriteSDLCommandShort_SEMICOLON
    }
}

impl FromId for CreateRewriteSDLCommandShort {
    open spec fn has_production(id: usize) -> bool {
        1013 <= id <= 1014
    }

    open spec fn production_id(self) -> usize {
        match self {
            Self::SetAnnotation => 1013,
            Self::SetField => 1014,
        }
    }

    fn from_id(id: usize) -> Self {
        match id {
            1013 => Self::SetAnnotation,
            _ => Self::SetField,
        }
    }
}

impl FromId for CreateRewriteSDLCommandsBlock {
    open spec fn has_production(id: usize) -> bool {
        1015 <= id <= 1018
    }

    open spec fn production_id(self) -> usize {
        match self {
            Self::LBRACE_OptSemicolons_CreateRewriteSDLCommandShort_RBRACE => 1015,
            Self::LBRACE_OptSemicolons_CreateRewriteSDLCommandsList_OptSemicolons_CreateRewriteSDLCommandShort_RBRACE => 1016,
            Self::LBRACE_OptSemicolons_CreateRewriteSDLCommandsList_OptSemicolons_RBRACE => 1017,
            Self::LBRACE_OptSemicolons_RBRACE => 1018,
        }
    }

    fn from_id(id: usize) -> Self {
        match id {
            1015 => Self::LBRACE_OptSemicolons_CreateRewriteSDLCommandShort_RBRACE,
            1016 => Self::LBRACE_OptSemicolons_CreateRewriteSDLCommandsList_OptSemicolons_CreateRewriteSDLCommandShort_RBRACE,
            1017 => Self::LBRACE_OptSemicolons_CreateRewriteSDLCommandsList_OptSemicolons_RBRACE,
            _ => Self::LBRACE_OptSemicolons_RBRACE,
        }
    }
}

impl FromId for CreateRewriteSDLCommandsList {
    open spec fn has_production(id: usize) -> bool {
        1019 <= id <= 1020
    }

    open spec fn production_id(self) -> usize {
        match self {
            Self::CreateRewriteSDLCommandFull => 1019,
            Self::CreateRewriteSDLCommandsList_OptSemicolons_CreateRewriteSDLCommandFull => 1020,
        }
    }

    fn from_id(id: usize) -> Self {
        match id {
            1019 => Self::CreateRewriteSDLCommandFull,
            _ => Self::CreateRewriteSDLCommandsList_OptSemicolons_CreateRewriteSDLCommandFull,
        }
    }
}

impl FromId for CreateRewriteStmt {
    open spec fn has_production(id: usize) -> bool {
        id == 1021
    }

    open spec fn production_id(self) -> usize {
        match self {
            Self::CREATE_REWRITE_RewriteKindList_USING_ParenExpr_OptCreateRewriteCommandsBlock => 1021,
        }
    }

    fn from_id(_id: usize) -> Self {
        Self::CREATE_REWRITE_RewriteKindList_USING_ParenExpr_OptCreateRewriteCommandsBlock
    }
}

impl FromId for CreateRoleCommand {
    open spec fn has_production(id: usize) -> bool {
        id == 1022
    }

    open spec fn production_id(self) -> usize {
        match self {
            Self::SetFieldStmt => 1022,
        }
    }

    fn from_id(_id: usize) -> Self {
        Self::SetFieldStmt
    }
}

impl FromId for CreateRoleCommandsBlock {
    open spec fn has_production(id: usize) -> bool {
        1023 <= id <= 1025
    }

    open spec fn production_id(self) -> usize {
        match self {
            Self::LBRACE_CreateRoleCommandsList_OptSemicolons_RBRACE => 1023,
            Self::LBRACE_OptSemicolons_RBRACE => 1024,
            Self::LBRACE_Semicolons_CreateRoleCommandsList_OptSemicolons_RBRACE => 1025,
        }
    }

    fn from_id(id: usize) -> Self {
        match id {
            1023 => Self::LBRACE_CreateRoleCommandsList_OptSemicolons_RBRACE,
            1024 => Self::LBRACE_OptSemicolons_RBRACE,
            _ => Self::LBRACE_Semicolons_CreateRoleCommandsList_OptSemicolons_RBRACE,
        }
    }
}

impl FromId for CreateRoleCommandsList {
    open spec fn has_production(id: usize) -> bool {
        1026 <= id <= 1027
    }

    open spec fn production_id(self) -> usize {
        match self {
            Self::CreateRoleCommand => 1026,
            Self::CreateRoleCommandsList_Semicolons_CreateRoleCommand => 1027,
        }
    }

    fn from_id(id: usize) -> Self {
        match id {
            1026 => Self::CreateRoleCommand,
            _ => Self::CreateRoleCommandsList_Semicolons_CreateRoleCommand,
        }
    }
}

impl FromId for CreateRoleStmt {
    open spec fn has_production(id: usize) -> bool {
        id == 1028
    }

    open spec fn production_id(self) -> usize {
        match self {
            Self::CREATE_OptSuperuser_ROLE_ShortNodeName_OptShortExtending_OptIfNotExists_OptCreateRoleCommandsBlock => 1028,
        }
    }

    fn from_id(_id: usize) -> Self {
        Self::CREATE_OptSuperuser_ROLE_ShortNodeName_OptShortExtending_OptIfNotExists_OptCreateRoleCommandsBlock
    }
}

impl FromId for CreateSDLCommandFull {
    open spec fn has_production(id: usize) -> bool {
        id == 1030
    }

    open spec fn production_id(self) -> usize {
        match self {
            Self::CreateSDLCommandShort_SEMICOLON => 1030,
        }
    }

    fn from_id(_id: usize) -> Self {
        Self::CreateSDLCommandShort_SEMICOLON
    }
}

impl FromId for CreateSDLCommandShort {
    open spec fn has_production(id: usize) -> bool {
        1031 <= id <= 1033
    }

    open spec fn production_id(self) -> usize {
        match self {
            Self::SetAnnotation => 1031,
            Self::SetField => 1032,
            Self::Using => 1033,
        }
    }

    fn from_id(id: usize) -> Self {
        match id {
            1031 => Self::SetAnnotation,
            1032 => Self::SetField,
            _ => Self::Using,
        }
    }
}

impl FromId for CreateSDLCommandsBlock {
    open spec fn has_production(id: usize) -> bool {
        1034 <= id <= 1037
    }

    open spec fn production_id(self) -> usize {
        match self {
            Self::LBRACE_OptSemicolons_CreateSDLCommandShort_RBRACE => 1034,
            Self::LBRACE_OptSemicolons_CreateSDLCommandsList_OptSemicolons_CreateSDLCommandShort_RBRACE => 1035,
            Self::LBRACE_OptSemicolons_CreateSDLCommandsList_OptSemicolons_RBRACE => 1036,
            Self::LBRACE_OptSemicolons_RBRACE => 1037,
        }
    }

    fn from_id(id: usize) -> Self {
        match id {
            1034 => Self::LBRACE_OptSemicolons_CreateSDLCommandShort_RBRACE,
            1035 => Self::LBRACE_OptSemicolons_CreateSDLCommandsList_OptSemicolons_CreateSDLCommandShort_RBRACE,
            1036 => Self::LBRACE_OptSemicolons_CreateSDLCommandsList_OptSemicolons_RBRACE,
            _ => Self::LBRACE_OptSemicolons_RBRACE,
        }
    }
}

impl FromId for CreateSDLCommandsList {
    open spec fn has_production(id: usize) -> bool {
        1038 <= id <= 1039
    }

    open spec fn production_id(self) -> usize {
        match self {
            Self::CreateSDLCommandFull => 1038,
            Self::CreateSDLCommandsList_OptSemicolons_CreateSDLCommandFull => 1039,
        }
    }

    fn from_id(id: usize) -> Self {
        match id {
            1038 => Self::CreateSDLCommandFull,
            _ => Self::CreateSDLCommandsList_OptSemicolons_CreateSDLCommandFull,
        }
    }
}

impl FromId for CreateScalarTypeCommand {
    open spec fn has_production(id: usize) -> bool {
        1040 <= id <= 1043
    }

    open spec fn production_id(self) -> usize {
        match self {
            Self::AlterAnnotationValueStmt => 1040,
            Self::CreateAnnotationValueStmt => 1041,
            Self::CreateConcreteConstraintStmt => 1042,
            Self::SetFieldStmt => 1043,
        }
    }

    fn from_id(id: usize) -> Self {
        match id {
            1040 => Self::AlterAnnotationValueStmt,
            1041 => Self::CreateAnnotationValueStmt,
            1042 => Self::CreateConcreteConstraintStmt,
            _ => Self::SetFieldStmt,
        }
    }
}

impl FromId for CreateScalarTypeCommandsBlock {
    open spec fn has_production(id: usize) -> bool {
        1044 <= id <= 1046
    }

    open spec fn production_id(self) -> usize {
        match self {
            Self::LBRACE_CreateScalarTypeCommandsList_OptSemicolons_RBRACE => 1044,
            Self::LBRACE_OptSemicolons_RBRACE => 1045,
            Self::LBRACE_Semicolons_CreateScalarTypeCommandsList_OptSemicolons_RBRACE => 1046,
        }
    }

    fn from_id(id: usize) -> Self {
        match id {
            1044 => Self::LBRACE_CreateScalarTypeCommandsList_OptSemicolons_RBRACE,
            1045 => Self::LBRACE_OptSemicolons_RBRACE,
            _ => Self::LBRACE_Semicolons_CreateScalarTypeCommandsList_OptSemicolons_RBRACE,
        }
    }
}

impl FromId for CreateScalarTypeCommandsList {
    open spec fn has_production(id: usize) -> bool {
        1047 <= id <= 1048
    }

    open spec fn production_id(self) -> usize {
        match self {
            Self::CreateScalarTypeCommand => 1047,
            Self::CreateScalarTypeCommandsList_Semicolons_CreateScalarTypeCommand => 1048,
        }
    }

    fn from_id(id: usize) -> Self {
        match id {
            1047 => Self::CreateScalarTypeCommand,
            _ => Self::CreateScalarTypeCommandsList_Semicolons_CreateScalarTypeCommand,
        }
    }
}

impl FromId for CreateScalarTypeSDLCommandBlock {
    open spec fn has_production(id: usize) -> bool {
        id == 1049
    }

    open spec fn production_id(self) -> usize {
        match self {
            Self::ConcreteConstraintBlock => 1049,
        }
    }

    fn from_id(_id: usize) -> Self {
        Self::ConcreteConstraintBlock
    }
}

impl FromId for CreateScalarTypeSDLCommandFull {
    open spec fn has_production(id: usize) -> bool {
        1050 <= id <= 1051
    }

    open spec fn production_id(self) -> usize {
        match self {
            Self::CreateScalarTypeSDLCommandBlock => 1050,
            Self::CreateScalarTypeSDLCommandShort_SEMICOLON => 1051,
        }
    }

    fn from_id(id: usize) -> Self {
        match id {
            1050 => Self::CreateScalarTypeSDLCommandBlock,
            _ => Self::CreateScalarTypeSDLCommandShort_SEMICOLON,
        }
    }
}

impl FromId for CreateScalarTypeSDLCommandShort {
    open spec fn has_production(id: usize) -> bool {
        1052 <= id <= 1054
    }

    open spec fn production_id(self) -> usize {
        match self {
            Self::ConcreteConstraintShort => 1052,
            Self::SetAnnotation => 1053,
            Self::SetField => 1054,
        }
    }

    fn from_id(id: usize) -> Self {
        match id {
            1052 => Self::ConcreteConstraintShort,
            1053 => Self::SetAnnotation,
            _ => Self::SetField,
        }
    }
}

impl FromId for CreateScalarTypeSDLCommandsBlock {
    open spec fn has_production(id: usize) -> bool {
        1055 <= id <= 1058
    }

    open spec fn production_id(self) -> usize {
        match self {
            Self::LBRACE_OptSemicolons_CreateScalarTypeSDLCommandShort_RBRACE => 1055,
            Self::LBRACE_OptSemicolons_CreateScalarTypeSDLCommandsList_OptSemicolons_CreateScalarTypeSDLCommandShort_RBRACE => 1056,
            Self::LBRACE_OptSemicolons_CreateScalarTypeSDLCommandsList_OptSemicolons_RBRACE => 1057,
            Self::LBRACE_OptSemicolons_RBRACE => 1058,
        }
    }

    fn from_id(id: usize) -> Self {
        match id {
            1055 => Self::LBRACE_OptSemicolons_CreateScalarTypeSDLCommandShort_RBRACE,
            1056 => Self::LBRACE_OptSemicolons_CreateScalarTypeSDLCommandsList_OptSemicolons_CreateScalarTypeSDLCommandShort_RBRACE,
            1057 => Self::LBRACE_OptSemicolons_CreateScalarTypeSDLCommandsList_OptSemicolons_RBRACE,
            _ => Self::LBRACE_OptSemicolons_RBRACE,
        }
    }
}

impl FromId for CreateScalarTypeSDLCommandsList {
    open spec fn has_production(id: usize) -> bool {
        1059 <= id <= 1060
    }

    open spec fn production_id(self) -> usize {
        match self {
            Self::CreateScalarTypeSDLCommandFull => 1059,
            Self::CreateScalarTypeSDLCommandsList_OptSemicolons_CreateScalarTypeSDLCommandFull => 1060,
        }
    }

    fn from_id(id: usize) -> Self {
        match id {
            1059 => Self::CreateScalarTypeSDLCommandFull,
            _ => Self::CreateScalarTypeSDLCommandsList_OptSemicolons_CreateScalarTypeSDLCommandFull,
        }
    }
}

impl FromId for CreateScalarTypeStmt {
    open spec fn has_production(id: usize) -> bool {
        1061 <= id <= 1063
    }

    open spec fn production_id(self) -> usize {
        match self {
            Self::CREATE_ABSTRACT_SCALAR_TYPE_NodeName_OptExtending_OptCreateScalarTypeCommandsBlock => 1061,
            Self::CREATE_FINAL_SCALAR_TYPE_NodeName_OptExtending_OptCreateScalarTypeCommandsBlock => 1062,
            Self::CREATE_SCALAR_TYPE_NodeName_OptExtending_OptCreateScalarTypeCommandsBlock => 1063,
        }
    }

    fn from_id(id: usize) -> Self {
        match id {
            1061 => Self::CREATE_ABSTRACT_SCALAR_TYPE_NodeName_OptExtending_OptCreateScalarTypeCommandsBlock,
            1062 => Self::CREATE_FINAL_SCALAR_TYPE_NodeName_OptExtending_OptCreateScalarTypeCommandsBlock,
            _ => Self::CREATE_SCALAR_TYPE_NodeName_OptExtending_OptCreateScalarTypeCommandsBlock,
        }
    }
}

impl FromId for CreateSimpleExtending {
    open spec fn has_production(id: usize) -> bool {
        id == 1064
    }

    open spec fn production_id(self) -> usize {
        match self {
            Self::EXTENDING_SimpleTypeNameList => 1064,
        }
    }

    fn from_id(_id: usize) -> Self {
        Self::EXTENDING_SimpleTypeNameList
    }
}

impl FromId for CreateTriggerCommand {
    open spec fn has_production(id: usize) -> bool {
        1065 <= id <= 1066
    }

    open spec fn production_id(self) -> usize {
        match self {
            Self::CreateAnnotationValueStmt => 1065,
            Self::SetFieldStmt => 1066,
        }
    }

    fn from_id(id: usize) -> Self {
        match id {
            1065 => Self::CreateAnnotationValueStmt,
            _ => Self::SetFieldStmt,
        }
    }
}

impl FromId for CreateTriggerCommandsBlock {
    open spec fn has_production(id: usize) -> bool {
        1067 <= id <= 1069
    }

    open spec fn production_id(self) -> usize {
        match self {
            Self::LBRACE_CreateTriggerCommandsList_OptSemicolons_RBRACE => 1067,
            Self::LBRACE_OptSemicolons_RBRACE => 1068,
            Self::LBRACE_Semicolons_CreateTriggerCommandsList_OptSemicolons_RBRACE => 1069,
        }
    }

    fn from_id(id: usize) -> Self {
        match id {
            1067 => Self::LBRACE_CreateTriggerCommandsList_OptSemicolons_RBRACE,
            1068 => Self::LBRACE_OptSemicolons_RBRACE,
            _ => Self::LBRACE_Semicolons_CreateTriggerCommandsList_OptSemicolons_RBRACE,
        }
    }
}

impl FromId for CreateTriggerCommandsList {
    open spec fn has_production(id: usize) -> bool {
        1070 <= id <= 1071
    }

    open spec fn production_id(self) -> usize {
        match self {
            Self::CreateTriggerCommand => 1070,
            Self::CreateTriggerCommandsList_Semicolons_CreateTriggerCommand => 1071,
        }
    }

    fn from_id(id: usize) -> Self {
        match id {
            1070 => Self::CreateTriggerCommand,
            _ => Self::CreateTriggerCommandsList_Semicolons_CreateTriggerCommand,
        }
    }
}

impl FromId for CreateTriggerSDLCommandFull {
    open spec fn has_production(id: usize) -> bool {
        id == 1073
    }

    open spec fn production_id(self) -> usize {
        match self {
            Self::CreateTriggerSDLCommandShort_SEMICOLON => 1073,
        }
    }

    fn from_id(_id: usize) -> Self {
        Self::CreateTriggerSDLCommandShort_SEMICOLON
    }
}

impl FromId for CreateTriggerSDLCommandShort {
    open spec fn has_production(id: usize) -> bool {
        1074 <= id <= 1075
    }

    open spec fn production_id(self) -> usize {
        match self {
            Self::SetAnnotation => 1074,
            Self::SetField => 1075,
        }
    }

    fn from_id(id: usize) -> Self {
        match id {
            1074 => Self::SetAnnotation,
            _ => Self::SetField,
        }
    }
}

impl FromId for CreateTriggerSDLCommandsBlock {
    open spec fn has_production(id: usize) -> bool {
        1076 <= id <= 1079
    }

    open spec fn production_id(self) -> usize {
        match self {
            Self::LBRACE_OptSemicolons_CreateTriggerSDLCommandShort_RBRACE => 1076,
            Self::LBRACE_OptSemicolons_CreateTriggerSDLCommandsList_OptSemicolons_CreateTriggerSDLCommandShort_RBRACE => 1077,
            Self::LBRACE_OptSemicolons_CreateTriggerSDLCommandsList_OptSemicolons_RBRACE => 1078,
            Self::LBRACE_OptSemicolons_RBRACE => 1079,
        }
    }

    fn from_id(id: usize) -> Self {
        match id {
            1076 => Self::LBRACE_OptSemicolons_CreateTriggerSDLCommandShort_RBRACE,
            1077 => Self::LBRACE_OptSemicolons_CreateTriggerSDLCommandsList_OptSemicolons_CreateTriggerSDLCommandShort_RBRACE,
            1078 => Self::LBRACE_OptSemicolons_CreateTriggerSDLCommandsList_OptSemicolons_RBRACE,
            _ => Self::LBRACE_OptSemicolons_RBRACE,
        }
    }
}

impl FromId for CreateTriggerSDLCommandsList {
    open spec fn has_production(id: usize) -> bool {
        1080 <= id <= 1081
    }

    open spec fn production_id(self) -> usize {
        match self {
            Self::CreateTriggerSDLCommandFull => 1080,
            Self::CreateTriggerSDLCommandsList_OptSemicolons_CreateTriggerSDLCommandFull => 1081,
        }
    }

    fn from_id(id: usize) -> Self {
        match id {
            1080 => Self::CreateTriggerSDLCommandFull,
            _ => Self::CreateTriggerSDLCommandsList_OptSemicolons_CreateTriggerSDLCommandFull,
        }
    }
}

impl FromId for CreateTriggerStmt {
    open spec fn has_production(id: usize) -> bool {
        id == 1082
    }

    open spec fn production_id(self) -> usize {
        match self {
            Self::CREATE_TRIGGER_UnqualifiedPointerName_TriggerTiming_TriggerKindList_FOR_TriggerScope_OptWhenBlock_DO_ParenExpr_OptCreateTriggerCommandsBlock => 1082,
        }
    }

    fn from_id(_id: usize) -> Self {
        Self::CREATE_TRIGGER_UnqualifiedPointerName_TriggerTiming_TriggerKindList_FOR_TriggerScope_OptWhenBlock_DO_ParenExpr_OptCreateTriggerCommandsBlock
    }
}

impl FromId for DDLStmt {
    open spec fn has_production(id: usize) -> bool {
        1083 <= id <= 1088
    }

    open spec fn production_id(self) -> usize {
        match self {
            Self::BranchStmt => 1083,
            Self::DatabaseStmt => 1084,
            Self::ExtensionPackageStmt => 1085,
            Self::MigrationStmt => 1086,
            Self::OptWithDDLStmt => 1087,
            Self::RoleStmt => 1088,
        }
    }

    fn from_id(id: usize) -> Self {
        match id {
            1083 => Self::BranchStmt,
            1084 => Self::DatabaseStmt,
            1085 => Self::ExtensionPackageStmt,
            1086 => Self::MigrationStmt,
            1087 => Self::OptWithDDLStmt,
            _ => Self::RoleStmt,
        }
    }
}

impl FromId for DDLWithBlock {
    open spec fn has_production(id: usize) -> bool {
        id == 1089
    }

    open spec fn production_id(self) -> usize {
        match self {
            Self::WithBlock => 1089,
        }
    }

    fn from_id(_id: usize) -> Self {
        Self::WithBlock
    }
}

impl FromId for DatabaseName {
    open spec fn has_production(id: usize) -> bool {
        1090 <= id <= 1091
    }

    open spec fn production_id(self) -> usize {
        match self {
            Self::Identifier => 1090,
            Self::ReservedKeyword => 1091,
        }
    }

    fn from_id(id: usize) -> Self {
        match id {
            1090 => Self::Identifier,
            _ => Self::ReservedKeyword,
        }
    }
}

impl FromId for DatabaseStmt {
    open spec fn has_production(id: usize) -> bool {
        1092 <= id <= 1094
    }

    open spec fn production_id(self) -> usize {
        match self {
            Self::AlterDatabaseStmt => 1092,
            Self::CreateDatabaseStmt => 1093,
            Self::DropDatabaseStmt => 1094,
        }
    }

    fn from_id(id: usize) -> Self {
        match id {
            1092 => Self::AlterDatabaseStmt,
            1093 => Self::CreateDatabaseStmt,
            _ => Self::DropDatabaseStmt,
        }
    }
}

impl FromId for DescribeFormat {
    open spec fn has_production(id: usize) -> bool {
        1095 <= id <= 1100
    }

    open spec fn production_id(self) -> usize {
        match self {
            Self::AS_DDL => 1095,
            Self::AS_JSON => 1096,
            Self::AS_SDL => 1097,
            Self::AS_TEXT => 1098,
            Self::AS_TEXT_VERBOSE => 1099,
            Self::epsilon => 1100,
        }
    }

    fn from_id(id: usize) -> Self {
        match id {
            1095 => Self::AS_DDL,
            1096 => Self::AS_JSON,
            1097 => Self::AS_SDL,
            1098 => Self::AS_TEXT,
            1099 => Self::AS_TEXT_VERBOSE,
            _ => Self::epsilon,
        }
    }
}

impl FromId for DescribeStmt {
    open spec fn has_production(id: usize) -> bool {
        1101 <= id <= 1109
    }

    open spec fn production_id(self) -> usize {
        match self {
            Self::DESCRIBE_CURRENT_BRANCH_CONFIG_DescribeFormat => 1101,
            Self::DESCRIBE_CURRENT_DATABASE_CONFIG_DescribeFormat => 1102,
            Self::DESCRIBE_CURRENT_MIGRATION_DescribeFormat => 1103,
            Self::DESCRIBE_INSTANCE_CONFIG_DescribeFormat => 1104,
            Self::DESCRIBE_OBJECT_NodeName_DescribeFormat => 1105,
            Self::DESCRIBE_ROLES_DescribeFormat => 1106,
            Self::DESCRIBE_SCHEMA_DescribeFormat => 1107,
            Self::DESCRIBE_SYSTEM_CONFIG_DescribeFormat => 1108,
            Self::DESCRIBE_SchemaItem_DescribeFormat => 1109,
        }
    }

    fn from_id(id: usize) -> Self {
        match id {
            1101 => Self::DESCRIBE_CURRENT_BRANCH_CONFIG_DescribeFormat,
            1102 => Self::DESCRIBE_CURRENT_DATABASE_CONFIG_DescribeFormat,
            1103 => Self::DESCRIBE_CURRENT_MIGRATION_DescribeFormat,
            1104 => Self::DESCRIBE_INSTANCE_CONFIG_DescribeFormat,
            1105 => Self::DESCRIBE_OBJECT_NodeName_DescribeFormat,
            1106 => Self::DESCRIBE_ROLES_DescribeFormat,
            1107 => Self::DESCRIBE_SCHEMA_DescribeFormat,
            1108 => Self::DESCRIBE_SYSTEM_CONFIG_DescribeFormat,
            _ => Self::DESCRIBE_SchemaItem_DescribeFormat,
        }
    }
}

impl FromId for DotName {
    open spec fn has_production(id: usize) -> bool {
        id == 1110
    }

    open spec fn production_id(self) -> usize {
        match self {
            Self::DottedIdents => 1110,
        }
    }

    fn from_id(_id: usize) -> Self {
        Self::DottedIdents
    }
}

impl FromId for DottedIdents {
    open spec fn has_production(id: usize) -> bool {
        1111 <= id <= 1112
    }

    open spec fn production_id(self) -> usize {
        match self {
            Self::AnyIdentifier => 1111,
            Self::DottedIdents_DOT_AnyIdentifier => 1112,
        }
    }

    fn from_id(id: usize) -> Self {
        match id {
            1111 => Self::AnyIdentifier,
            _ => Self::DottedIdents_DOT_AnyIdentifier,
        }
    }
}

impl FromId for DropAccessPolicyStmt {
    open spec fn has_production(id: usize) -> bool {
        id == 1113
    }

    open spec fn production_id(self) -> usize {
        match self {
            Self::DROP_ACCESS_POLICY_UnqualifiedPointerName => 1113,
        }
    }

    fn from_id(_id: usize) -> Self {
        Self::DROP_ACCESS_POLICY_UnqualifiedPointerName
    }
}

impl FromId for DropAliasStmt {
    open spec fn has_production(id: usize) -> bool {
        id == 1114
    }

    open spec fn production_id(self) -> usize {
        match self {
            Self::DROP_ALIAS_NodeName => 1114,
        }
    }

    fn from_id(_id: usize) -> Self {
        Self::DROP_ALIAS_NodeName
    }
}

impl FromId for DropAnnotationStmt {
    open spec fn has_production(id: usize) -> bool {
        id == 1115
    }

    open spec fn production_id(self) -> usize {
        match self {
            Self::DROP_ABSTRACT_ANNOTATION_NodeName => 1115,
        }
    }

    fn from_id(_id: usize) -> Self {
        Self::DROP_ABSTRACT_ANNOTATION_NodeName
    }
}

impl FromId for DropAnnotationValueStmt {
    open spec fn has_production(id: usize) -> bool {
        id == 1116
    }

    open spec fn production_id(self) -> usize {
        match self {
            Self::DROP_ANNOTATION_NodeName => 1116,
        }
    }

    fn from_id(_id: usize) -> Self {
        Self::DROP_ANNOTATION_NodeName
    }
}

impl FromId for DropBranchStmt {
    open spec fn has_production(id: usize) -> bool {
        id == 1117
    }

    open spec fn production_id(self) -> usize {
        match self {
            Self::DROP_BRANCH_DatabaseName_BranchOptions => 1117,
        }
    }

    fn from_id(_id: usize) -> Self {
        Self::DROP_BRANCH_DatabaseName_BranchOptions
    }
}

impl FromId for DropCastStmt {
    open spec fn has_production(id: usize) -> bool {
        id == 1118
    }

    open spec fn production_id(self) -> usize {
        match self {
            Self::DROP_CAST_FROM_TypeName_TO_TypeName => 1118,
        }
    }

    fn from_id(_id: usize) -> Self {
        Self::DROP_CAST_FROM_TypeName_TO_TypeName
    }
}

impl FromId for DropConcreteConstraintStmt {
    open spec fn has_production(id: usize) -> bool {
        id == 1119
    }

    open spec fn production_id(self) -> usize {
        match self {
            Self::DROP_CONSTRAINT_NodeName_OptConcreteConstraintArgList_OptOnExpr_OptExceptExpr => 1119,
        }
    }

    fn from_id(_id: usize) -> Self {
        Self::DROP_CONSTRAINT_NodeName_OptConcreteConstraintArgList_OptOnExpr_OptExceptExpr
    }
}

impl FromId for DropConcreteIndexCommand {
    open spec fn has_production(id: usize) -> bool {
        id == 1120
    }

    open spec fn production_id(self) -> usize {
        match self {
            Self::SetFieldStmt => 1120,
        }
    }

    fn from_id(_id: usize) -> Self {
        Self::SetFieldStmt
    }
}

impl FromId for DropConcreteIndexCommandsBlock {
    open spec fn has_production(id: usize) -> bool {
        1121 <= id <= 1123
    }

    open spec fn production_id(self) -> usize {
        match self {
            Self::LBRACE_DropConcreteIndexCommandsList_OptSemicolons_RBRACE => 1121,
            Self::LBRACE_OptSemicolons_RBRACE => 1122,
            Self::LBRACE_Semicolons_DropConcreteIndexCommandsList_OptSemicolons_RBRACE => 1123,
        }
    }

    fn from_id(id: usize) -> Self {
        match id {
            1121 => Self::LBRACE_DropConcreteIndexCommandsList_OptSemicolons_RBRACE,
            1122 => Self::LBRACE_OptSemicolons_RBRACE,
            _ => Self::LBRACE_Semicolons_DropConcreteIndexCommandsList_OptSemicolons_RBRACE,
        }
    }
}

impl FromId for DropConcreteIndexCommandsList {
    open spec fn has_production(id: usize) -> bool {
        1124 <= id <= 1125
    }

    open spec fn production_id(self) -> usize {
        match self {
            Self::DropConcreteIndexCommand => 1124,
            Self::DropConcreteIndexCommandsList_Semicolons_DropConcreteIndexCommand => 1125,
        }
    }

    fn from_id(id: usize) -> Self {
        match id {
            1124 => Self::DropConcreteIndexCommand,
            _ => Self::DropConcreteIndexCommandsList_Semicolons_DropConcreteIndexCommand,
        }
    }
}

impl FromId for DropConcreteIndexStmt {
    open spec fn has_production(id: usize) -> bool {
        1126 <= id <= 1127
    }

    open spec fn production_id(self) -> usize {
        match self {
            Self::DROP_INDEX_OnExpr_OptExceptExpr_OptDropConcreteIndexCommandsBlock => 1126,
            Self::DROP_INDEX_NodeName_OptIndexExtArgList_OnExpr_OptExceptExpr_OptDropConcreteIndexCommandsBlock => 1127,
        }
    }

    fn from_id(id: usize) -> Self {
        match id {
            1126 => Self::DROP_INDEX_OnExpr_OptExceptExpr_OptDropConcreteIndexCommandsBlock,
            _ => Self::DROP_INDEX_NodeName_OptIndexExtArgList_OnExpr_OptExceptExpr_OptDropConcreteIndexCommandsBlock,
        }
    }
}

impl FromId for DropConcreteLinkCommand {
    open spec fn has_production(id: usize) -> bool {
        1128 <= id <= 1130
    }

    open spec fn production_id(self) -> usize {
        match self {
            Self::DropConcreteConstraintStmt => 1128,
            Self::DropConcreteIndexStmt => 1129,
            Self::DropConcretePropertyStmt => 1130,
        }
    }

    fn from_id(id: usize) -> Self {
        match id {
            1128 => Self::DropConcreteConstraintStmt,
            1129 => Self::DropConcreteIndexStmt,
            _ => Self::DropConcretePropertyStmt,
        }
    }
}

impl FromId for DropConcreteLinkCommandsBlock {
    open spec fn has_production(id: usize) -> bool {
        1131 <= id <= 1133
    }

    open spec fn production_id(self) -> usize {
        match self {
            Self::LBRACE_DropConcreteLinkCommandsList_OptSemicolons_RBRACE => 1131,
            Self::LBRACE_OptSemicolons_RBRACE => 1132,
            Self::LBRACE_Semicolons_DropConcreteLinkCommandsList_OptSemicolons_RBRACE => 1133,
        }
    }

    fn from_id(id: usize) -> Self {
        match id {
            1131 => Self::LBRACE_DropConcreteLinkCommandsList_OptSemicolons_RBRACE,
            1132 => Self::LBRACE_OptSemicolons_RBRACE,
            _ => Self::LBRACE_Semicolons_DropConcreteLinkCommandsList_OptSemicolons_RBRACE,
        }
    }
}

impl FromId for DropConcreteLinkCommandsList {
    open spec fn has_production(id: usize) -> bool {
        1134 <= id <= 1135
    }

    open spec fn production_id(self) -> usize {
        match self {
            Self::DropConcreteLinkCommand => 1134,
            Self::DropConcreteLinkCommandsList_Semicolons_DropConcreteLinkCommand => 1135,
        }
    }

    fn from_id(id: usize) -> Self {
        match id {
            1134 => Self::DropConcreteLinkCommand,
            _ => Self::DropConcreteLinkCommandsList_Semicolons_DropConcreteLinkCommand,
        }
    }
}

impl FromId for DropConcreteLinkStmt {
    open spec fn has_production(id: usize) -> bool {
        id == 1136
    }

    open spec fn production_id(self) -> usize {
        match self {
            Self::DROP_LINK_UnqualifiedPointerName_OptDropConcreteLinkCommandsBlock => 1136,
        }
    }

    fn from_id(_id: usize) -> Self {
        Self::DROP_LINK_UnqualifiedPointerName_OptDropConcreteLinkCommandsBlock
    }
}

impl FromId for DropConcretePropertyStmt {
    open spec fn has_production(id: usize) -> bool {
        id == 1137
    }

    open spec fn production_id(self) -> usize {
        match self {
            Self::DROP_PROPERTY_UnqualifiedPointerName => 1137,
        }
    }

    fn from_id(_id: usize) -> Self {
        Self::DROP_PROPERTY_UnqualifiedPointerName
    }
}

impl FromId for DropConstraintStmt {
    open spec fn has_production(id: usize) -> bool {
        id == 1138
    }

    open spec fn production_id(self) -> usize {
        match self {
            Self::DROP_ABSTRACT_CONSTRAINT_NodeName => 1138,
        }
    }

    fn from_id(_id: usize) -> Self {
        Self::DROP_ABSTRACT_CONSTRAINT_NodeName
    }
}

impl FromId for DropDatabaseStmt {
    open spec fn has_production(id: usize) -> bool {
        id == 1139
    }

    open spec fn production_id(self) -> usize {
        match self {
            Self::DROP_DATABASE_DatabaseName => 1139,
        }
    }

    fn from_id(_id: usize) -> Self {
        Self::DROP_DATABASE_DatabaseName
    }
}

impl FromId for DropExtensionPackageMigrationStmt {
    open spec fn has_production(id: usize) -> bool {
        id == 1140
    }

    open spec fn production_id(self) -> usize {
        match self {
            Self::DROP_EXTENSIONPACKAGE_ShortNodeName_MIGRATION_FROM_ExtensionVersion_TO_ExtensionVersion => 1140,
        }
    }

    fn from_id(_id: usize) -> Self {
        Self::DROP_EXTENSIONPACKAGE_ShortNodeName_MIGRATION_FROM_ExtensionVersion_TO_ExtensionVersion
    }
}

impl FromId for DropExtensionPackageStmt {
    open spec fn has_production(id: usize) -> bool {
        id == 1141
    }

    open spec fn production_id(self) -> usize {
        match self {
            Self::DROP_EXTENSIONPACKAGE_ShortNodeName_ExtensionVersion => 1141,
        }
    }

    fn from_id(_id: usize) -> Self {
        Self::DROP_EXTENSIONPACKAGE_ShortNodeName_ExtensionVersion
    }
}

impl FromId for DropExtensionStmt {
    open spec fn has_production(id: usize) -> bool {
        id == 1142
    }

    open spec fn production_id(self) -> usize {
        match self {
            Self::DROP_EXTENSION_ShortNodeName_OptExtensionVersion => 1142,
        }
    }

    fn from_id(_id: usize) -> Self {
        Self::DROP_EXTENSION_ShortNodeName_OptExtensionVersion
    }
}

impl FromId for DropFunctionStmt {
    open spec fn has_production(id: usize) -> bool {
        id == 1143
    }

    open spec fn production_id(self) -> usize {
        match self {
            Self::DROP_FUNCTION_NodeName_CreateFunctionArgs => 1143,
        }
    }

    fn from_id(_id: usize) -> Self {
        Self::DROP_FUNCTION_NodeName_CreateFunctionArgs
    }
}

impl FromId for DropFutureStmt {
    open spec fn has_production(id: usize) -> bool {
        id == 1144
    }

    open spec fn production_id(self) -> usize {
        match self {
            Self::DROP_FUTURE_ShortNodeName => 1144,
        }
    }

    fn from_id(_id: usize) -> Self {
        Self::DROP_FUTURE_ShortNodeName
    }
}

impl FromId for DropGlobalStmt {
    open spec fn has_production(id: usize) -> bool {
        id == 1145
    }

    open spec fn production_id(self) -> usize {
        match self {
            Self::DROP_GLOBAL_NodeName => 1145,
        }
    }

    fn from_id(_id: usize) -> Self {
        Self::DROP_GLOBAL_NodeName
    }
}

impl FromId for DropIndexMatchStmt {
    open spec fn has_production(id: usize) -> bool {
        id == 1146
    }

    open spec fn production_id(self) -> usize {
        match self {
            Self::DROP_INDEX_MATCH_FOR_TypeName_USING_NodeName => 1146,
        }
    }

    fn from_id(_id: usize) -> Self {
        Self::DROP_INDEX_MATCH_FOR_TypeName_USING_NodeName
    }
}

impl FromId for DropIndexStmt {
    open spec fn has_production(id: usize) -> bool {
        id == 1147
    }

    open spec fn production_id(self) -> usize {
        match self {
            Self::DROP_ABSTRACT_INDEX_NodeName => 1147,
        }
    }

    fn from_id(_id: usize) -> Self {
        Self::DROP_ABSTRACT_INDEX_NodeName
    }
}

impl FromId for DropLinkCommand {
    open spec fn has_production(id: usize) -> bool {
        1148 <= id <= 1150
    }

    open spec fn production_id(self) -> usize {
        match self {
            Self::DropConcreteConstraintStmt => 1148,
            Self::DropConcreteIndexStmt => 1149,
            Self::DropConcretePropertyStmt => 1150,
        }
    }

    fn from_id(id: usize) -> Self {
        match id {
            1148 => Self::DropConcreteConstraintStmt,
            1149 => Self::DropConcreteIndexStmt,
            _ => Self::DropConcretePropertyStmt,
        }
    }
}

impl FromId for DropLinkCommandsBlock {
    open spec fn has_production(id: usize) -> bool {
        1151 <= id <= 1153
    }

    open spec fn production_id(self) -> usize {
        match self {
            Self::LBRACE_DropLinkCommandsList_OptSemicolons_RBRACE => 1151,
            Self::LBRACE_OptSemicolons_RBRACE => 1152,
            Self::LBRACE_Semicolons_DropLinkCommandsList_OptSemicolons_RBRACE => 1153,
        }
    }

    fn from_id(id: usize) -> Self {
        match id {
            1151 => Self::LBRACE_DropLinkCommandsList_OptSemicolons_RBRACE,
            1152 => Self::LBRACE_OptSemicolons_RBRACE,
            _ => Self::LBRACE_Semicolons_DropLinkCommandsList_OptSemicolons_RBRACE,
        }
    }
}

impl FromId for DropLinkCommandsList {
    open spec fn has_production(id: usize) -> bool {
        1154 <= id <= 1155
    }

    open spec fn production_id(self) -> usize {
        match self {
            Self::DropLinkCommand => 1154,
            Self::DropLinkCommandsList_Semicolons_DropLinkCommand => 1155,
        }
    }

    fn from_id(id: usize) -> Self {
        match id {
            1154 => Self::DropLinkCommand,
            _ => Self::DropLinkCommandsList_Semicolons_DropLinkCommand,
        }
    }
}

impl FromId for DropLinkStmt {
    open spec fn has_production(id: usize) -> bool {
        id == 1156
    }

    open spec fn production_id(self) -> usize {
        match self {
            Self::DROP_ABSTRACT_LINK_PtrNodeName_OptDropLinkCommandsBlock => 1156,
        }
    }

    fn from_id(_id: usize) -> Self {
        Self::DROP_ABSTRACT_LINK_PtrNodeName_OptDropLinkCommandsBlock
    }
}

impl FromId for DropMigrationStmt {
    open spec fn has_production(id: usize) -> bool {
        id == 1157
    }

    open spec fn production_id(self) -> usize {
        match self {
            Self::DROP_MIGRATION_NodeName => 1157,
        }
    }

    fn from_id(_id: usize) -> Self {
        Self::DROP_MIGRATION_NodeName
    }
}

impl FromId for DropModuleStmt {
    open spec fn has_production(id: usize) -> bool {
        id == 1158
    }

    open spec fn production_id(self) -> usize {
        match self {
            Self::DROP_MODULE_ModuleName => 1158,
        }
    }

    fn from_id(_id: usize) -> Self {
        Self::DROP_MODULE_ModuleName
    }
}

impl FromId for DropObjectTypeCommand {
    open spec fn has_production(id: usize) -> bool {
        1159 <= id <= 1162
    }

    open spec fn production_id(self) -> usize {
        match self {
            Self::DropConcreteConstraintStmt => 1159,
            Self::DropConcreteIndexStmt => 1160,
            Self::DropConcreteLinkStmt => 1161,
            Self::DropConcretePropertyStmt => 1162,
        }
    }

    fn from_id(id: usize) -> Self {
        match id {
            1159 => Self::DropConcreteConstraintStmt,
            1160 => Self::DropConcreteIndexStmt,
            1161 => Self::DropConcreteLinkStmt,
            _ => Self::DropConcretePropertyStmt,
        }
    }
}

impl FromId for DropObjectTypeCommandsBlock {
    open spec fn has_production(id: usize) -> bool {
        1163 <= id <= 1165
    }

    open spec fn production_id(self) -> usize {
        match self {
            Self::LBRACE_DropObjectTypeCommandsList_OptSemicolons_RBRACE => 1163,
            Self::LBRACE_OptSemicolons_RBRACE => 1164,
            Self::LBRACE_Semicolons_DropObjectTypeCommandsList_OptSemicolons_RBRACE => 1165,
        }
    }

    fn from_id(id: usize) -> Self {
        match id {
            1163 => Self::LBRACE_DropObjectTypeCommandsList_OptSemicolons_RBRACE,
            1164 => Self::LBRACE_OptSemicolons_RBRACE,
            _ => Self::LBRACE_Semicolons_DropObjectTypeCommandsList_OptSemicolons_RBRACE,
        }
    }
}

impl FromId for DropObjectTypeCommandsList {
    open spec fn has_production(id: usize) -> bool {
        1166 <= id <= 1167
    }

    open spec fn production_id(self) -> usize {
        match self {
            Self::DropObjectTypeCommand => 1166,
            Self::DropObjectTypeCommandsList_Semicolons_DropObjectTypeCommand => 1167,
        }
    }

    fn from_id(id: usize) -> Self {
        match id {
            1166 => Self::DropObjectTypeCommand,
            _ => Self::DropObjectTypeCommandsList_Semicolons_DropObjectTypeCommand,
        }
    }
}

impl FromId for DropObjectTypeStmt {
    open spec fn has_production(id: usize) -> bool {
        id == 1168
    }

    open spec fn production_id(self) -> usize {
        match self {
            Self::DROP_TYPE_NodeName_OptDropObjectTypeCommandsBlock => 1168,
        }
    }

    fn from_id(_id: usize) -> Self {
        Self::DROP_TYPE_NodeName_OptDropObjectTypeCommandsBlock
    }
}

impl FromId for DropOperatorStmt {
    open spec fn has_production(id: usize) -> bool {
        id == 1169
    }

    open spec fn production_id(self) -> usize {
        match self {
            Self::DROP_OperatorKind_OPERATOR_NodeName_CreateFunctionArgs => 1169,
        }
    }

    fn from_id(_id: usize) -> Self {
        Self::DROP_OperatorKind_OPERATOR_NodeName_CreateFunctionArgs
    }
}

impl FromId for DropPermissionStmt {
    open spec fn has_production(id: usize) -> bool {
        id == 1170
    }

    open spec fn production_id(self) -> usize {
        match self {
            Self::DROP_PERMISSION_NodeName => 1170,
        }
    }

    fn from_id(_id: usize) -> Self {
        Self::DROP_PERMISSION_NodeName
    }
}

impl FromId for DropPropertyStmt {
    open spec fn has_production(id: usize) -> bool {
        id == 1171
    }

    open spec fn production_id(self) -> usize {
        match self {
            Self::DROP_ABSTRACT_PROPERTY_PtrNodeName => 1171,
        }
    }

    fn from_id(_id: usize) -> Self {
        Self::DROP_ABSTRACT_PROPERTY_PtrNodeName
    }
}

impl FromId for DropRewriteStmt {
    open spec fn has_production(id: usize) -> bool {
        id == 1172
    }

    open spec fn production_id(self) -> usize {
        match self {
            Self::DROP_REWRITE_RewriteKindList => 1172,
        }
    }

    fn from_id(_id: usize) -> Self {
        Self::DROP_REWRITE_RewriteKindList
    }
}

impl FromId for DropRoleStmt {
    open spec fn has_production(id: usize) -> bool {
        id == 1173
    }

    open spec fn production_id(self) -> usize {
        match self {
            Self::DROP_ROLE_ShortNodeName => 1173,
        }
    }

    fn from_id(_id: usize) -> Self {
        Self::DROP_ROLE_ShortNodeName
    }
}

impl FromId for DropScalarTypeStmt {
    open spec fn has_production(id: usize) -> bool {
        id == 1174
    }

    open spec fn production_id(self) -> usize {
        match self {
            Self::DROP_SCALAR_TYPE_NodeName => 1174,
        }
    }

    fn from_id(_id: usize) -> Self {
        Self::DROP_SCALAR_TYPE_NodeName
    }
}

impl FromId for DropTriggerStmt {
    open spec fn has_production(id: usize) -> bool {
        id == 1175
    }

    open spec fn production_id(self) -> usize {
        match self {
            Self::DROP_TRIGGER_UnqualifiedPointerName => 1175,
        }
    }

    fn from_id(_id: usize) -> Self {
        Self::DROP_TRIGGER_UnqualifiedPointerName
    }
}

impl FromId for EdgeQLBlock {
    open spec fn has_production(id: usize) -> bool {
        1176 <= id <= 1177
    }

    open spec fn production_id(self) -> usize {
        match self {
            Self::OptSemicolons => 1176,
            Self::StatementBlock_OptSemicolons => 1177,
        }
    }

    fn from_id(id: usize) -> Self {
        match id {
            1176 => Self::OptSemicolons,
            _ => Self::StatementBlock_OptSemicolons,
        }
    }
}

impl FromId for EdgeQLGrammar {
    open spec fn has_production(id: usize) -> bool {
        1178 <= id <= 1183
    }

    open spec fn production_id(self) -> usize {
        match self {
            Self::STARTBLOCK_EdgeQLBlock_EOI => 1178,
            Self::STARTEXTENSION_CreateExtensionPackageCommandsBlock_EOI => 1179,
            Self::STARTFRAGMENT_ExprStmt_EOI => 1180,
            Self::STARTFRAGMENT_Expr_EOI => 1181,
            Self::STARTMIGRATION_CreateMigrationCommandsBlock_EOI => 1182,
            Self::STARTSDLDOCUMENT_SDLDocument_EOI => 1183,
        }
    }

    fn from_id(id: usize) -> Self {
        match id {
            1178 => Self::STARTBLOCK_EdgeQLBlock_EOI,
            1179 => Self::STARTEXTENSION_CreateExtensionPackageCommandsBlock_EOI,
            1180 => Self::STARTFRAGMENT_ExprStmt_EOI,
            1181 => Self::STARTFRAGMENT_Expr_EOI,
            1182 => Self::STARTMIGRATION_CreateMigrationCommandsBlock_EOI,
            _ => Self::STARTSDLDOCUMENT_SDLDocument_EOI,
        }
    }
}

impl FromId for Expr {
    open spec fn has_production(id: usize) -> bool {
        1184 <= id <= 1223
    }

    open spec fn production_id(self) -> usize {
        match self {
            Self::BaseAtomicExpr => 1184,
            Self::DETACHED_Expr => 1185,
            Self::DISTINCT_Expr => 1186,
            Self::EXISTS_Expr => 1187,
            Self::Expr_AND_Expr => 1188,
            Self::Expr_CIRCUMFLEX_Expr => 1189,
            Self::Expr_CompareOp_Expr_P_COMPARE_OP => 1190,
            Self::Expr_DOUBLEPLUS_Expr => 1191,
            Self::Expr_DOUBLEQMARK_Expr_P_DOUBLEQMARK_OP => 1192,
            Self::Expr_DOUBLESLASH_Expr => 1193,
            Self::Expr_EXCEPT_Expr => 1194,
            Self::Expr_IF_Expr_ELSE_Expr => 1195,
            Self::Expr_ILIKE_Expr => 1196,
            Self::Expr_INTERSECT_Expr => 1197,
            Self::Expr_IN_Expr => 1198,
            Self::Expr_IS_NOT_TypeExpr_P_IS => 1199,
            Self::Expr_IS_TypeExpr => 1200,
            Self::Expr_IndirectionEl => 1201,
            Self::Expr_LIKE_Expr => 1202,
            Self::Expr_MINUS_Expr => 1203,
            Self::Expr_NOT_ILIKE_Expr => 1204,
            Self::Expr_NOT_IN_Expr_P_IN => 1205,
            Self::Expr_NOT_LIKE_Expr => 1206,
            Self::Expr_OR_Expr => 1207,
            Self::Expr_PERCENT_Expr => 1208,
            Self::Expr_PLUS_Expr => 1209,
            Self::Expr_SLASH_Expr => 1210,
            Self::Expr_STAR_Expr => 1211,
            Self::Expr_Shape => 1212,
            Self::Expr_UNION_Expr => 1213,
            Self::GLOBAL_NodeName => 1214,
            Self::INTROSPECT_TypeExpr => 1215,
            Self::IfThenElseExpr => 1216,
            Self::LANGBRACKET_FullTypeExpr_RANGBRACKET_Expr_P_TYPECAST => 1217,
            Self::LANGBRACKET_OPTIONAL_FullTypeExpr_RANGBRACKET_Expr_P_TYPECAST => 1218,
            Self::LANGBRACKET_REQUIRED_FullTypeExpr_RANGBRACKET_Expr_P_TYPECAST => 1219,
            Self::MINUS_Expr_P_UMINUS => 1220,
            Self::NOT_Expr => 1221,
            Self::PLUS_Expr_P_UMINUS => 1222,
            Self::Path => 1223,
        }
    }

    fn from_id(id: usize) -> Self {
        match id {
            1184 => Self::BaseAtomicExpr,
            1185 => Self::DETACHED_Expr,
            1186 => Self::DISTINCT_Expr,
            1187 => Self::EXISTS_Expr,
            1188 => Self::Expr_AND_Expr,
            1189 => Self::Expr_CIRCUMFLEX_Expr,
            1190 => Self::Expr_CompareOp_Expr_P_COMPARE_OP,
            1191 => Self::Expr_DOUBLEPLUS_Expr,
            1192 => Self::Expr_DOUBLEQMARK_Expr_P_DOUBLEQMARK_OP,
            1193 => Self::Expr_DOUBLESLASH_Expr,
            1194 => Self::Expr_EXCEPT_Expr,
            1195 => Self::Expr_IF_Expr_ELSE_Expr,
            1196 => Self::Expr_ILIKE_Expr,
            1197 => Self::Expr_INTERSECT_Expr,
            1198 => Self::Expr_IN_Expr,
            1199 => Self::Expr_IS_NOT_TypeExpr_P_IS,
            1200 => Self::Expr_IS_TypeExpr,
            1201 => Self::Expr_IndirectionEl,
            1202 => Self::Expr_LIKE_Expr,
            1203 => Self::Expr_MINUS_Expr,
            1204 => Self::Expr_NOT_ILIKE_Expr,
            1205 => Self::Expr_NOT_IN_Expr_P_IN,
            1206 => Self::Expr_NOT_LIKE_Expr,
            1207 => Self::Expr_OR_Expr,
            1208 => Self::Expr_PERCENT_Expr,
            1209 => Self::Expr_PLUS_Expr,
            1210 => Self::Expr_SLASH_Expr,
            1211 => Self::Expr_STAR_Expr,
            1212 => Self::Expr_Shape,
            1213 => Self::Expr_UNION_Expr,
            1214 => Self::GLOBAL_NodeName,
            1215 => Self::INTROSPECT_TypeExpr,
            1216 => Self::IfThenElseExpr,
            1217 => Self::LANGBRACKET_FullTypeExpr_RANGBRACKET_Expr_P_TYPECAST,
            1218 => Self::LANGBRACKET_OPTIONAL_FullTypeExpr_RANGBRACKET_Expr_P_TYPECAST,
            1219 => Self::LANGBRACKET_REQUIRED_FullTypeExpr_RANGBRACKET_Expr_P_TYPECAST,
            1220 => Self::MINUS_Expr_P_UMINUS,
            1221 => Self::NOT_Expr,
            1222 => Self::PLUS_Expr_P_UMINUS,
            _ => Self::Path,
        }
    }
}

impl FromId for ExprList {
    open spec fn has_production(id: usize) -> bool {
        1224 <= id <= 1225
    }

    open spec fn production_id(self) -> usize {
        match self {
            Self::ExprListInner => 1224,
            Self::ExprListInner_COMMA => 1225,
        }
    }

    fn from_id(id: usize) -> Self {
        match id {
            1224 => Self::ExprListInner,
            _ => Self::ExprListInner_COMMA,
        }
    }
}

impl FromId for ExprListInner {
    open spec fn has_production(id: usize) -> bool {
        1226 <= id <= 1227
    }

    open spec fn production_id(self) -> usize {
        match self {
            Self::ExprListInner_COMMA_GenExpr => 1226,
            Self::GenExpr => 1227,
        }
    }

    fn from_id(id: usize) -> Self {
        match id {
            1226 => Self::ExprListInner_COMMA_GenExpr,
            _ => Self::GenExpr,
        }
    }
}

impl FromId for ExprStmt {
    open spec fn has_production(id: usize) -> bool {
        1228 <= id <= 1229
    }

    open spec fn production_id(self) -> usize {
        match self {
            Self::ExprStmtAnnoying => 1228,
            Self::ExprStmtSimple => 1229,
        }
    }

    fn from_id(id: usize) -> Self {
        match id {
            1228 => Self::ExprStmtAnnoying,
            _ => Self::ExprStmtSimple,
        }
    }
}

impl FromId for ExprStmtAnnoying {
    open spec fn has_production(id: usize) -> bool {
        1230 <= id <= 1231
    }

    open spec fn production_id(self) -> usize {
        match self {
            Self::ExprStmtAnnoyingCore => 1230,
            Self::WithBlock_ExprStmtAnnoyingCore => 1231,
        }
    }

    fn from_id(id: usize) -> Self {
        match id {
            1230 => Self::ExprStmtAnnoyingCore,
            _ => Self::WithBlock_ExprStmtAnnoyingCore,
        }
    }
}

impl FromId for ExprStmtAnnoyingCore {
    open spec fn has_production(id: usize) -> bool {
        1232 <= id <= 1233
    }

    open spec fn production_id(self) -> usize {
        match self {
            Self::AnnoyingFor => 1232,
            Self::SimpleGroup => 1233,
        }
    }

    fn from_id(id: usize) -> Self {
        match id {
            1232 => Self::AnnoyingFor,
            _ => Self::SimpleGroup,
        }
    }
}

impl FromId for ExprStmtSimple {
    open spec fn has_production(id: usize) -> bool {
        1234 <= id <= 1235
    }

    open spec fn production_id(self) -> usize {
        match self {
            Self::ExprStmtSimpleCore => 1234,
            Self::WithBlock_ExprStmtSimpleCore => 1235,
        }
    }

    fn from_id(id: usize) -> Self {
        match id {
            1234 => Self::ExprStmtSimpleCore,
            _ => Self::WithBlock_ExprStmtSimpleCore,
        }
    }
}

impl FromId for ExprStmtSimpleCore {
    open spec fn has_production(id: usize) -> bool {
        1236 <= id <= 1241
    }

    open spec fn production_id(self) -> usize {
        match self {
            Self::InternalGroup => 1236,
            Self::SimpleDelete => 1237,
            Self::SimpleFor => 1238,
            Self::SimpleInsert => 1239,
            Self::SimpleSelect => 1240,
            Self::SimpleUpdate => 1241,
        }
    }

    fn from_id(id: usize) -> Self {
        match id {
            1236 => Self::InternalGroup,
            1237 => Self::SimpleDelete,
            1238 => Self::SimpleFor,
            1239 => Self::SimpleInsert,
            1240 => Self::SimpleSelect,
            _ => Self::SimpleUpdate,
        }
    }
}

impl FromId for Extending {
    open spec fn has_production(id: usize) -> bool {
        id == 1242
    }

    open spec fn production_id(self) -> usize {
        match self {
            Self::EXTENDING_TypeNameList => 1242,
        }
    }

    fn from_id(_id: usize) -> Self {
        Self::EXTENDING_TypeNameList
    }
}

impl FromId for ExtendingSimple {
    open spec fn has_production(id: usize) -> bool {
        id == 1243
    }

    open spec fn production_id(self) -> usize {
        match self {
            Self::EXTENDING_SimpleTypeNameList => 1243,
        }
    }

    fn from_id(_id: usize) -> Self {
        Self::EXTENDING_SimpleTypeNameList
    }
}

impl FromId for ExtensionPackageStmt {
    open spec fn has_production(id: usize) -> bool {
        1244 <= id <= 1247
    }

    open spec fn production_id(self) -> usize {
        match self {
            Self::CreateExtensionPackageMigrationStmt => 1244,
            Self::CreateExtensionPackageStmt => 1245,
            Self::DropExtensionPackageMigrationStmt => 1246,
            Self::DropExtensionPackageStmt => 1247,
        }
    }

    fn from_id(id: usize) -> Self {
        match id {
            1244 => Self::CreateExtensionPackageMigrationStmt,
            1245 => Self::CreateExtensionPackageStmt,
            1246 => Self::DropExtensionPackageMigrationStmt,
            _ => Self::DropExtensionPackageStmt,
        }
    }
}

impl FromId for ExtensionRequirementDeclaration {
    open spec fn has_production(id: usize) -> bool {
        id == 1248
    }

    open spec fn production_id(self) -> usize {
        match self {
            Self::USING_EXTENSION_ShortNodeName_OptExtensionVersion => 1248,
        }
    }

    fn from_id(_id: usize) -> Self {
        Self::USING_EXTENSION_ShortNodeName_OptExtensionVersion
    }
}

impl FromId for ExtensionStmt {
    open spec fn has_production(id: usize) -> bool {
        1249 <= id <= 1251
    }

    open spec fn production_id(self) -> usize {
        match self {
            Self::AlterExtensionStmt => 1249,
            Self::CreateExtensionStmt => 1250,
            Self::DropExtensionStmt => 1251,
        }
    }

    fn from_id(id: usize) -> Self {
        match id {
            1249 => Self::AlterExtensionStmt,
            1250 => Self::CreateExtensionStmt,
            _ => Self::DropExtensionStmt,
        }
    }
}

impl FromId for ExtensionVersion {
    open spec fn has_production(id: usize) -> bool {
        id == 1252
    }

    open spec fn production_id(self) -> usize {
        match self {
            Self::VERSION_BaseStringConstant => 1252,
        }
    }

    fn from_id(_id: usize) -> Self {
        Self::VERSION_BaseStringConstant
    }
}

impl FromId for FilterClause {
    open spec fn has_production(id: usize) -> bool {
        id == 1253
    }

    open spec fn production_id(self) -> usize {
        match self {
            Self::FILTER_Expr => 1253,
        }
    }

    fn from_id(_id: usize) -> Self {
        Self::FILTER_Expr
    }
}

impl FromId for FreeComputableShapePointer {
    open spec fn has_production(id: usize) -> bool {
        1254 <= id <= 1262
    }

    open spec fn production_id(self) -> usize {
        match self {
            Self::FreeSimpleShapePointer_ASSIGN_GenExpr => 1254,
            Self::MULTI_FreeSimpleShapePointer_ASSIGN_GenExpr => 1255,
            Self::OPTIONAL_FreeSimpleShapePointer_ASSIGN_GenExpr => 1256,
            Self::OPTIONAL_MULTI_FreeSimpleShapePointer_ASSIGN_GenExpr => 1257,
            Self::OPTIONAL_SINGLE_FreeSimpleShapePointer_ASSIGN_GenExpr => 1258,
            Self::REQUIRED_FreeSimpleShapePointer_ASSIGN_GenExpr => 1259,
            Self::REQUIRED_MULTI_FreeSimpleShapePointer_ASSIGN_GenExpr => 1260,
            Self::REQUIRED_SINGLE_FreeSimpleShapePointer_ASSIGN_GenExpr => 1261,
            Self::SINGLE_FreeSimpleShapePointer_ASSIGN_GenExpr => 1262,
        }
    }

    fn from_id(id: usize) -> Self {
        match id {
            1254 => Self::FreeSimpleShapePointer_ASSIGN_GenExpr,
            1255 => Self::MULTI_FreeSimpleShapePointer_ASSIGN_GenExpr,
            1256 => Self::OPTIONAL_FreeSimpleShapePointer_ASSIGN_GenExpr,
            1257 => Self::OPTIONAL_MULTI_FreeSimpleShapePointer_ASSIGN_GenExpr,
            1258 => Self::OPTIONAL_SINGLE_FreeSimpleShapePointer_ASSIGN_GenExpr,
            1259 => Self::REQUIRED_FreeSimpleShapePointer_ASSIGN_GenExpr,
            1260 => Self::REQUIRED_MULTI_FreeSimpleShapePointer_ASSIGN_GenExpr,
            1261 => Self::REQUIRED_SINGLE_FreeSimpleShapePointer_ASSIGN_GenExpr,
            _ => Self::SINGLE_FreeSimpleShapePointer_ASSIGN_GenExpr,
        }
    }
}

impl FromId for FreeComputableShapePointerList {
    open spec fn has_production(id: usize) -> bool {
        1263 <= id <= 1264
    }

    open spec fn production_id(self) -> usize {
        match self {
            Self::FreeComputableShapePointerListInner => 1263,
            Self::FreeComputableShapePointerListInner_COMMA => 1264,
        }
    }

    fn from_id(id: usize) -> Self {
        match id {
            1263 => Self::FreeComputableShapePointerListInner,
            _ => Self::FreeComputableShapePointerListInner_COMMA,
        }
    }
}

impl FromId for FreeComputableShapePointerListInner {
    open spec fn has_production(id: usize) -> bool {
        1265 <= id <= 1266
    }

    open spec fn production_id(self) -> usize {
        match self {
            Self::FreeComputableShapePointer => 1265,
            Self::FreeComputableShapePointerListInner_COMMA_FreeComputableShapePointer => 1266,
        }
    }

    fn from_id(id: usize) -> Self {
        match id {
            1265 => Self::FreeComputableShapePointer,
            _ => Self::FreeComputableShapePointerListInner_COMMA_FreeComputableShapePointer,
        }
    }
}

impl FromId for FreeShape {
    open spec fn has_production(id: usize) -> bool {
        id == 1267
    }

    open spec fn production_id(self) -> usize {
        match self {
            Self::LBRACE_FreeComputableShapePointerList_RBRACE => 1267,
        }
    }

    fn from_id(_id: usize) -> Self {
        Self::LBRACE_FreeComputableShapePointerList_RBRACE
    }
}

impl FromId for FreeSimpleShapePointer {
    open spec fn has_production(id: usize) -> bool {
        id == 1268
    }

    open spec fn production_id(self) -> usize {
        match self {
            Self::FreeStepName => 1268,
        }
    }

    fn from_id(_id: usize) -> Self {
        Self::FreeStepName
    }
}

impl FromId for FreeStepName {
    open spec fn has_production(id: usize) -> bool {
        1269 <= id <= 1270
    }

    open spec fn production_id(self) -> usize {
        match self {
            Self::DUNDERTYPE => 1269,
            Self::ShortNodeName => 1270,
        }
    }

    fn from_id(id: usize) -> Self {
        match id {
            1269 => Self::DUNDERTYPE,
            _ => Self::ShortNodeName,
        }
    }
}

impl FromId for FromFunction {
    open spec fn has_production(id: usize) -> bool {
        1271 <= id <= 1274
    }

    open spec fn production_id(self) -> usize {
        match self {
            Self::USING_Identifier_BaseStringConstant => 1271,
            Self::USING_Identifier_EXPRESSION => 1272,
            Self::USING_Identifier_FUNCTION_BaseStringConstant => 1273,
            Self::USING_ParenExpr => 1274,
        }
    }

    fn from_id(id: usize) -> Self {
        match id {
            1271 => Self::USING_Identifier_BaseStringConstant,
            1272 => Self::USING_Identifier_EXPRESSION,
            1273 => Self::USING_Identifier_FUNCTION_BaseStringConstant,
            _ => Self::USING_ParenExpr,
        }
    }
}

impl FromId for FullTypeExpr {
    open spec fn has_production(id: usize) -> bool {
        1275 <= id <= 1279
    }

    open spec fn production_id(self) -> usize {
        match self {
            Self::FullTypeExpr_AMPER_FullTypeExpr => 1275,
            Self::FullTypeExpr_PIPE_FullTypeExpr => 1276,
            Self::LPAREN_FullTypeExpr_RPAREN => 1277,
            Self::TYPEOF_Expr => 1278,
            Self::TypeName => 1279,
        }
    }

    fn from_id(id: usize) -> Self {
        match id {
            1275 => Self::FullTypeExpr_AMPER_FullTypeExpr,
            1276 => Self::FullTypeExpr_PIPE_FullTypeExpr,
            1277 => Self::LPAREN_FullTypeExpr_RPAREN,
            1278 => Self::TYPEOF_Expr,
            _ => Self::TypeName,
        }
    }
}

impl FromId for FuncApplication {
    open spec fn has_production(id: usize) -> bool {
        id == 1280
    }

    open spec fn production_id(self) -> usize {
        match self {
            Self::NodeName_LPAREN_OptFuncArgList_RPAREN => 1280,
        }
    }

    fn from_id(_id: usize) -> Self {
        Self::NodeName_LPAREN_OptFuncArgList_RPAREN
    }
}

impl FromId for FuncArgList {
    open spec fn has_production(id: usize) -> bool {
        1281 <= id <= 1282
    }

    open spec fn production_id(self) -> usize {
        match self {
            Self::FuncArgListInner => 1281,
            Self::FuncArgListInner_COMMA => 1282,
        }
    }

    fn from_id(id: usize) -> Self {
        match id {
            1281 => Self::FuncArgListInner,
            _ => Self::FuncArgListInner_COMMA,
        }
    }
}

impl FromId for FuncArgListInner {
    open spec fn has_production(id: usize) -> bool {
        1283 <= id <= 1284
    }

    open spec fn production_id(self) -> usize {
        match self {
            Self::FuncArgListInner_COMMA_FuncCallArg => 1283,
            Self::FuncCallArg => 1284,
        }
    }

    fn from_id(id: usize) -> Self {
        match id {
            1283 => Self::FuncArgListInner_COMMA_FuncCallArg,
            _ => Self::FuncCallArg,
        }
    }
}

impl FromId for FuncCallArg {
    open spec fn has_production(id: usize) -> bool {
        1285 <= id <= 1287
    }

    open spec fn production_id(self) -> usize {
        match self {
            Self::AnyIdentifier_ASSIGN_ExprStmtSimple => 1285,
            Self::ExprStmtSimple => 1286,
            Self::FuncCallArgExpr_OptFilterClause_OptSortClause => 1287,
        }
    }

    fn from_id(id: usize) -> Self {
        match id {
            1285 => Self::AnyIdentifier_ASSIGN_ExprStmtSimple,
            1286 => Self::ExprStmtSimple,
            _ => Self::FuncCallArgExpr_OptFilterClause_OptSortClause,
        }
    }
}

impl FromId for FuncCallArgExpr {
    open spec fn has_production(id: usize) -> bool {
        1288 <= id <= 1290
    }

    open spec fn production_id(self) -> usize {
        match self {
            Self::AnyIdentifier_ASSIGN_Expr => 1288,
            Self::Expr => 1289,
            Self::PARAMETER_ASSIGN_Expr => 1290,
        }
    }

    fn from_id(id: usize) -> Self {
        match id {
            1288 => Self::AnyIdentifier_ASSIGN_Expr,
            1289 => Self::Expr,
            _ => Self::PARAMETER_ASSIGN_Expr,
        }
    }
}

impl FromId for FuncDeclArg {
    open spec fn has_production(id: usize) -> bool {
        1291 <= id <= 1292
    }

    open spec fn production_id(self) -> usize {
        match self {
            Self::OptParameterKind_FuncDeclArgName_OptDefault => 1291,
            Self::OptParameterKind_FuncDeclArgName_COLON_OptTypeQualifier_FullTypeExpr_OptDefault => 1292,
        }
    }

    fn from_id(id: usize) -> Self {
        match id {
            1291 => Self::OptParameterKind_FuncDeclArgName_OptDefault,
            _ => Self::OptParameterKind_FuncDeclArgName_COLON_OptTypeQualifier_FullTypeExpr_OptDefault,
        }
    }
}

impl FromId for FuncDeclArgList {
    open spec fn has_production(id: usize) -> bool {
        1293 <= id <= 1294
    }

    open spec fn production_id(self) -> usize {
        match self {
            Self::FuncDeclArgListInner => 1293,
            Self::FuncDeclArgListInner_COMMA => 1294,
        }
    }

    fn from_id(id: usize) -> Self {
        match id {
            1293 => Self::FuncDeclArgListInner,
            _ => Self::FuncDeclArgListInner_COMMA,
        }
    }
}

impl FromId for FuncDeclArgListInner {
    open spec fn has_production(id: usize) -> bool {
        1295 <= id <= 1296
    }

    open spec fn production_id(self) -> usize {
        match self {
            Self::FuncDeclArg => 1295,
            Self::FuncDeclArgListInner_COMMA_FuncDeclArg => 1296,
        }
    }

    fn from_id(id: usize) -> Self {
        match id {
            1295 => Self::FuncDeclArg,
            _ => Self::FuncDeclArgListInner_COMMA_FuncDeclArg,
        }
    }
}

impl FromId for FuncDeclArgName {
    open spec fn has_production(id: usize) -> bool {
        1297 <= id <= 1298
    }

    open spec fn production_id(self) -> usize {
        match self {
            Self::Identifier => 1297,
            Self::PARAMETER => 1298,
        }
    }

    fn from_id(id: usize) -> Self {
        match id {
            1297 => Self::Identifier,
            _ => Self::PARAMETER,
        }
    }
}

impl FromId for FuncDeclArgs {
    open spec fn has_production(id: usize) -> bool {
        id == 1299
    }

    open spec fn production_id(self) -> usize {
        match self {
            Self::FuncDeclArgList => 1299,
        }
    }

    fn from_id(_id: usize) -> Self {
        Self::FuncDeclArgList
    }
}

impl FromId for FuncExpr {
    open spec fn has_production(id: usize) -> bool {
        id == 1300
    }

    open spec fn production_id(self) -> usize {
        match self {
            Self::FuncApplication => 1300,
        }
    }

    fn from_id(_id: usize) -> Self {
        Self::FuncApplication
    }
}

impl FromId for FunctionDeclaration {
    open spec fn has_production(id: usize) -> bool {
        id == 1301
    }

    open spec fn production_id(self) -> usize {
        match self {
            Self::FUNCTION_NodeName_CreateFunctionArgs_ARROW_OptTypeQualifier_FunctionType_CreateFunctionSDLCommandsBlock => 1301,
        }
    }

    fn from_id(_id: usize) -> Self {
        Self::FUNCTION_NodeName_CreateFunctionArgs_ARROW_OptTypeQualifier_FunctionType_CreateFunctionSDLCommandsBlock
    }
}

impl FromId for FunctionDeclarationShort {
    open spec fn has_production(id: usize) -> bool {
        id == 1302
    }

    open spec fn production_id(self) -> usize {
        match self {
            Self::FUNCTION_NodeName_CreateFunctionArgs_ARROW_OptTypeQualifier_FunctionType_CreateFunctionSingleSDLCommandBlock => 1302,
        }
    }

    fn from_id(_id: usize) -> Self {
        Self::FUNCTION_NodeName_CreateFunctionArgs_ARROW_OptTypeQualifier_FunctionType_CreateFunctionSingleSDLCommandBlock
    }
}

impl FromId for FunctionType {
    open spec fn has_production(id: usize) -> bool {
        id == 1303
    }

    open spec fn production_id(self) -> usize {
        match self {
            Self::FullTypeExpr => 1303,
        }
    }

    fn from_id(_id: usize) -> Self {
        Self::FullTypeExpr
    }
}

impl FromId for FutureRequirementDeclaration {
    open spec fn has_production(id: usize) -> bool {
        id == 1304
    }

    open spec fn production_id(self) -> usize {
        match self {
            Self::USING_FUTURE_ShortNodeName => 1304,
        }
    }

    fn from_id(_id: usize) -> Self {
        Self::USING_FUTURE_ShortNodeName
    }
}

impl FromId for FutureStmt {
    open spec fn has_production(id: usize) -> bool {
        1305 <= id <= 1306
    }

    open spec fn production_id(self) -> usize {
        match self {
            Self::CreateFutureStmt => 1305,
            Self::DropFutureStmt => 1306,
        }
    }

    fn from_id(id: usize) -> Self {
        match id {
            1305 => Self::CreateFutureStmt,
            _ => Self::DropFutureStmt,
        }
    }
}

impl FromId for GenExpr {
    open spec fn has_production(id: usize) -> bool {
        1307 <= id <= 1308
    }

    open spec fn production_id(self) -> usize {
        match self {
            Self::Expr => 1307,
            Self::ExprStmtSimpleCore => 1308,
        }
    }

    fn from_id(id: usize) -> Self {
        match id {
            1307 => Self::Expr,
            _ => Self::ExprStmtSimpleCore,
        }
    }
}

impl FromId for GlobalDeclaration {
    open spec fn has_production(id: usize) -> bool {
        1309 <= id <= 1310
    }

    open spec fn production_id(self) -> usize {
        match self {
            Self::GLOBAL_NodeName_OptPtrTarget_CreateGlobalSDLCommandsBlock => 1309,
            Self::PtrQuals_GLOBAL_NodeName_OptPtrTarget_CreateGlobalSDLCommandsBlock => 1310,
        }
    }

    fn from_id(id: usize) -> Self {
        match id {
            1309 => Self::GLOBAL_NodeName_OptPtrTarget_CreateGlobalSDLCommandsBlock,
            _ => Self::PtrQuals_GLOBAL_NodeName_OptPtrTarget_CreateGlobalSDLCommandsBlock,
        }
    }
}

impl FromId for GlobalDeclarationShort {
    open spec fn has_production(id: usize) -> bool {
        1311 <= id <= 1314
    }

    open spec fn production_id(self) -> usize {
        match self {
            Self::GLOBAL_NodeName_ASSIGN_GenExpr => 1311,
            Self::PtrQuals_GLOBAL_NodeName_ASSIGN_GenExpr => 1312,
            Self::GLOBAL_NodeName_PtrTarget => 1313,
            Self::PtrQuals_GLOBAL_NodeName_PtrTarget => 1314,
        }
    }

    fn from_id(id: usize) -> Self {
        match id {
            1311 => Self::GLOBAL_NodeName_ASSIGN_GenExpr,
            1312 => Self::PtrQuals_GLOBAL_NodeName_ASSIGN_GenExpr,
            1313 => Self::GLOBAL_NodeName_PtrTarget,
            _ => Self::PtrQuals_GLOBAL_NodeName_PtrTarget,
        }
    }
}

impl FromId for GroupingAtom {
    open spec fn has_production(id: usize) -> bool {
        1315 <= id <= 1316
    }

    open spec fn production_id(self) -> usize {
        match self {
            Self::GroupingIdent => 1315,
            Self::LPAREN_GroupingIdentList_RPAREN => 1316,
        }
    }

    fn from_id(id: usize) -> Self {
        match id {
            1315 => Self::GroupingIdent,
            _ => Self::LPAREN_GroupingIdentList_RPAREN,
        }
    }
}

impl FromId for GroupingAtomList {
    open spec fn has_production(id: usize) -> bool {
        1317 <= id <= 1318
    }

    open spec fn production_id(self) -> usize {
        match self {
            Self::GroupingAtomListInner => 1317,
            Self::GroupingAtomListInner_COMMA => 1318,
        }
    }

    fn from_id(id: usize) -> Self {
        match id {
            1317 => Self::GroupingAtomListInner,
            _ => Self::GroupingAtomListInner_COMMA,
        }
    }
}

impl FromId for GroupingAtomListInner {
    open spec fn has_production(id: usize) -> bool {
        1319 <= id <= 1320
    }

    open spec fn production_id(self) -> usize {
        match self {
            Self::GroupingAtom => 1319,
            Self::GroupingAtomListInner_COMMA_GroupingAtom => 1320,
        }
    }

    fn from_id(id: usize) -> Self {
        match id {
            1319 => Self::GroupingAtom,
            _ => Self::GroupingAtomListInner_COMMA_GroupingAtom,
        }
    }
}

impl FromId for GroupingElement {
    open spec fn has_production(id: usize) -> bool {
        1321 <= id <= 1324
    }

    open spec fn production_id(self) -> usize {
        match self {
            Self::CUBE_LPAREN_GroupingAtomList_RPAREN => 1321,
            Self::GroupingAtom => 1322,
            Self::LBRACE_GroupingElementList_RBRACE => 1323,
            Self::ROLLUP_LPAREN_GroupingAtomList_RPAREN => 1324,
        }
    }

    fn from_id(id: usize) -> Self {
        match id {
            1321 => Self::CUBE_LPAREN_GroupingAtomList_RPAREN,
            1322 => Self::GroupingAtom,
            1323 => Self::LBRACE_GroupingElementList_RBRACE,
            _ => Self::ROLLUP_LPAREN_GroupingAtomList_RPAREN,
        }
    }
}

impl FromId for GroupingElementList {
    open spec fn has_production(id: usize) -> bool {
        1325 <= id <= 1326
    }

    open spec fn production_id(self) -> usize {
        match self {
            Self::GroupingElementListInner => 1325,
            Self::GroupingElementListInner_COMMA => 1326,
        }
    }

    fn from_id(id: usize) -> Self {
        match id {
            1325 => Self::GroupingElementListInner,
            _ => Self::GroupingElementListInner_COMMA,
        }
    }
}

impl FromId for GroupingElementListInner {
    open spec fn has_production(id: usize) -> bool {
        1327 <= id <= 1328
    }

    open spec fn production_id(self) -> usize {
        match self {
            Self::GroupingElement => 1327,
            Self::GroupingElementListInner_COMMA_GroupingElement => 1328,
        }
    }

    fn from_id(id: usize) -> Self {
        match id {
            1327 => Self::GroupingElement,
            _ => Self::GroupingElementListInner_COMMA_GroupingElement,
        }
    }
}

impl FromId for GroupingIdent {
    open spec fn has_production(id: usize) -> bool {
        1329 <= id <= 1331
    }

    open spec fn production_id(self) -> usize {
        match self {
            Self::AT_Identifier => 1329,
            Self::DOT_Identifier => 1330,
            Self::Identifier => 1331,
        }
    }

    fn from_id(id: usize) -> Self {
        match id {
            1329 => Self::AT_Identifier,
            1330 => Self::DOT_Identifier,
            _ => Self::Identifier,
        }
    }
}

impl FromId for GroupingIdentList {
    open spec fn has_production(id: usize) -> bool {
        1332 <= id <= 1333
    }

    open spec fn production_id(self) -> usize {
        match self {
            Self::GroupingIdent => 1332,
            Self::GroupingIdentList_COMMA_GroupingIdent => 1333,
        }
    }

    fn from_id(id: usize) -> Self {
        match id {
            1332 => Self::GroupingIdent,
            _ => Self::GroupingIdentList_COMMA_GroupingIdent,
        }
    }
}

impl FromId for Identifier {
    open spec fn has_production(id: usize) -> bool {
        1334 <= id <= 1335
    }

    open spec fn production_id(self) -> usize {
        match self {
            Self::IDENT => 1334,
            Self::UnreservedKeyword => 1335,
        }
    }

    fn from_id(id: usize) -> Self {
        match id {
            1334 => Self::IDENT,
            _ => Self::UnreservedKeyword,
        }
    }
}

impl FromId for IfThenElseExpr {
    open spec fn has_production(id: usize) -> bool {
        id == 1336
    }

    open spec fn production_id(self) -> usize {
        match self {
            Self::IF_Expr_THEN_Expr_ELSE_Expr => 1336,
        }
    }

    fn from_id(_id: usize) -> Self {
        Self::IF_Expr_THEN_Expr_ELSE_Expr
    }
}

impl FromId for IndexArg {
    open spec fn has_production(id: usize) -> bool {
        1337 <= id <= 1340
    }

    open spec fn production_id(self) -> usize {
        match self {
            Self::AnyIdentifier_ASSIGN_Expr => 1337,
            Self::FuncDeclArgName_OptDefault => 1338,
            Self::FuncDeclArgName_COLON_OptTypeQualifier_FullTypeExpr_OptDefault => 1339,
            Self::ParameterKind_FuncDeclArgName_COLON_OptTypeQualifier_FullTypeExpr_OptDefault => 1340,
        }
    }

    fn from_id(id: usize) -> Self {
        match id {
            1337 => Self::AnyIdentifier_ASSIGN_Expr,
            1338 => Self::FuncDeclArgName_OptDefault,
            1339 => Self::FuncDeclArgName_COLON_OptTypeQualifier_FullTypeExpr_OptDefault,
            _ => Self::ParameterKind_FuncDeclArgName_COLON_OptTypeQualifier_FullTypeExpr_OptDefault,
        }
    }
}

impl FromId for IndexArgList {
    open spec fn has_production(id: usize) -> bool {
        1341 <= id <= 1342
    }

    open spec fn production_id(self) -> usize {
        match self {
            Self::IndexArgListInner => 1341,
            Self::IndexArgListInner_COMMA => 1342,
        }
    }

    fn from_id(id: usize) -> Self {
        match id {
            1341 => Self::IndexArgListInner,
            _ => Self::IndexArgListInner_COMMA,
        }
    }
}

impl FromId for IndexArgListInner {
    open spec fn has_production(id: usize) -> bool {
        1343 <= id <= 1344
    }

    open spec fn production_id(self) -> usize {
        match self {
            Self::IndexArg => 1343,
            Self::IndexArgListInner_COMMA_IndexArg => 1344,
        }
    }

    fn from_id(id: usize) -> Self {
        match id {
            1343 => Self::IndexArg,
            _ => Self::IndexArgListInner_COMMA_IndexArg,
        }
    }
}

impl FromId for IndexDeclaration {
    open spec fn has_production(id: usize) -> bool {
        1345 <= id <= 1346
    }

    open spec fn production_id(self) -> usize {
        match self {
            Self::ABSTRACT_INDEX_NodeName_OptExtendingSimple_CreateIndexSDLCommandsBlock => 1345,
            Self::ABSTRACT_INDEX_NodeName_IndexExtArgList_OptExtendingSimple_CreateIndexSDLCommandsBlock => 1346,
        }
    }

    fn from_id(id: usize) -> Self {
        match id {
            1345 => Self::ABSTRACT_INDEX_NodeName_OptExtendingSimple_CreateIndexSDLCommandsBlock,
            _ => Self::ABSTRACT_INDEX_NodeName_IndexExtArgList_OptExtendingSimple_CreateIndexSDLCommandsBlock,
        }
    }
}

impl FromId for IndexDeclarationShort {
    open spec fn has_production(id: usize) -> bool {
        1347 <= id <= 1348
    }

    open spec fn production_id(self) -> usize {
        match self {
            Self::ABSTRACT_INDEX_NodeName_OptExtendingSimple => 1347,
            Self::ABSTRACT_INDEX_NodeName_IndexExtArgList_OptExtendingSimple => 1348,
        }
    }

    fn from_id(id: usize) -> Self {
        match id {
            1347 => Self::ABSTRACT_INDEX_NodeName_OptExtendingSimple,
            _ => Self::ABSTRACT_INDEX_NodeName_IndexExtArgList_OptExtendingSimple,
        }
    }
}

impl FromId for IndexExtArgList {
    open spec fn has_production(id: usize) -> bool {
        id == 1349
    }

    open spec fn production_id(self) -> usize {
        match self {
            Self::LPAREN_OptIndexArgList_RPAREN => 1349,
        }
    }

    fn from_id(_id: usize) -> Self {
        Self::LPAREN_OptIndexArgList_RPAREN
    }
}

impl FromId for IndirectionEl {
    open spec fn has_production(id: usize) -> bool {
        1350 <= id <= 1353
    }

    open spec fn production_id(self) -> usize {
        match self {
            Self::LBRACKET_COLON_Expr_RBRACKET => 1350,
            Self::LBRACKET_Expr_COLON_Expr_RBRACKET => 1351,
            Self::LBRACKET_Expr_COLON_RBRACKET => 1352,
            Self::LBRACKET_Expr_RBRACKET => 1353,
        }
    }

    fn from_id(id: usize) -> Self {
        match id {
            1350 => Self::LBRACKET_COLON_Expr_RBRACKET,
            1351 => Self::LBRACKET_Expr_COLON_Expr_RBRACKET,
            1352 => Self::LBRACKET_Expr_COLON_RBRACKET,
            _ => Self::LBRACKET_Expr_RBRACKET,
        }
    }
}

impl FromId for InnerDDLStmt {
    open spec fn has_production(id: usize) -> bool {
        1354 <= id <= 1400
    }

    open spec fn production_id(self) -> usize {
        match self {
            Self::AlterAliasStmt => 1354,
            Self::AlterAnnotationStmt => 1355,
            Self::AlterCastStmt => 1356,
            Self::AlterConstraintStmt => 1357,
            Self::AlterFunctionStmt => 1358,
            Self::AlterGlobalStmt => 1359,
            Self::AlterIndexStmt => 1360,
            Self::AlterLinkStmt => 1361,
            Self::AlterModuleStmt => 1362,
            Self::AlterObjectTypeStmt => 1363,
            Self::AlterOperatorStmt => 1364,
            Self::AlterPermissionStmt => 1365,
            Self::AlterPropertyStmt => 1366,
            Self::AlterScalarTypeStmt => 1367,
            Self::CreateAliasStmt => 1368,
            Self::CreateAnnotationStmt => 1369,
            Self::CreateCastStmt => 1370,
            Self::CreateConstraintStmt => 1371,
            Self::CreateFunctionStmt => 1372,
            Self::CreateGlobalStmt => 1373,
            Self::CreateIndexMatchStmt => 1374,
            Self::CreateIndexStmt => 1375,
            Self::CreateLinkStmt => 1376,
            Self::CreateModuleStmt => 1377,
            Self::CreateObjectTypeStmt => 1378,
            Self::CreateOperatorStmt => 1379,
            Self::CreatePermissionStmt => 1380,
            Self::CreatePropertyStmt => 1381,
            Self::CreatePseudoTypeStmt => 1382,
            Self::CreateScalarTypeStmt => 1383,
            Self::DropAliasStmt => 1384,
            Self::DropAnnotationStmt => 1385,
            Self::DropCastStmt => 1386,
            Self::DropConstraintStmt => 1387,
            Self::DropFunctionStmt => 1388,
            Self::DropGlobalStmt => 1389,
            Self::DropIndexMatchStmt => 1390,
            Self::DropIndexStmt => 1391,
            Self::DropLinkStmt => 1392,
            Self::DropModuleStmt => 1393,
            Self::DropObjectTypeStmt => 1394,
            Self::DropOperatorStmt => 1395,
            Self::DropPermissionStmt => 1396,
            Self::DropPropertyStmt => 1397,
            Self::DropScalarTypeStmt => 1398,
            Self::ExtensionStmt => 1399,
            Self::FutureStmt => 1400,
        }
    }

    fn from_id(id: usize) -> Self {
        match id {
            1354 => Self::AlterAliasStmt,
            1355 => Self::AlterAnnotationStmt,
            1356 => Self::AlterCastStmt,
            1357 => Self::AlterConstraintStmt,
            1358 => Self::AlterFunctionStmt,
            1359 => Self::AlterGlobalStmt,
            1360 => Self::AlterIndexStmt,
            1361 => Self::AlterLinkStmt,
            1362 => Self::AlterModuleStmt,
            1363 => Self::AlterObjectTypeStmt,
            1364 => Self::AlterOperatorStmt,
            1365 => Self::AlterPermissionStmt,
            1366 => Self::AlterPropertyStmt,
            1367 => Self::AlterScalarTypeStmt,
            1368 => Self::CreateAliasStmt,
            1369 => Self::CreateAnnotationStmt,
            1370 => Self::CreateCastStmt,
            1371 => Self::CreateConstraintStmt,
            1372 => Self::CreateFunctionStmt,
            1373 => Self::CreateGlobalStmt,
            1374 => Self::CreateIndexMatchStmt,
            1375 => Self::CreateIndexStmt,
            1376 => Self::CreateLinkStmt,
            1377 => Self::CreateModuleStmt,
            1378 => Self::CreateObjectTypeStmt,
            1379 => Self::CreateOperatorStmt,
            1380 => Self::CreatePermissionStmt,
            1381 => Self::CreatePropertyStmt,
            1382 => Self::CreatePseudoTypeStmt,
            1383 => Self::CreateScalarTypeStmt,
            1384 => Self::DropAliasStmt,
            1385 => Self::DropAnnotationStmt,
            1386 => Self::DropCastStmt,
            1387 => Self::DropConstraintStmt,
            1388 => Self::DropFunctionStmt,
            1389 => Self::DropGlobalStmt,
            1390 => Self::DropIndexMatchStmt,
            1391 => Self::DropIndexStmt,
            1392 => Self::DropLinkStmt,
            1393 => Self::DropModuleStmt,
            1394 => Self::DropObjectTypeStmt,
            1395 => Self::DropOperatorStmt,
            1396 => Self::DropPermissionStmt,
            1397 => Self::DropPropertyStmt,
            1398 => Self::DropScalarTypeStmt,
            1399 => Self::ExtensionStmt,
            _ => Self::FutureStmt,
        }
    }
}

impl FromId for InternalGroup {
    open spec fn has_production(id: usize) -> bool {
        id == 1401
    }

    open spec fn production_id(self) -> usize {
        match self {
            Self::FOR_GROUP_OptionallyAliasedExpr_UsingClause_ByClause_IN_Identifier_OptGroupingAlias_UNION_OptionallyAliasedExpr_OptFilterClause_OptSortClause => 1401,
        }
    }

    fn from_id(_id: usize) -> Self {
        Self::FOR_GROUP_OptionallyAliasedExpr_UsingClause_ByClause_IN_Identifier_OptGroupingAlias_UNION_OptionallyAliasedExpr_OptFilterClause_OptSortClause
    }
}

impl FromId for LimitClause {
    open spec fn has_production(id: usize) -> bool {
        id == 1402
    }

    open spec fn production_id(self) -> usize {
        match self {
            Self::LIMIT_Expr => 1402,
        }
    }

    fn from_id(_id: usize) -> Self {
        Self::LIMIT_Expr
    }
}

impl FromId for LinkDeclaration {
    open spec fn has_production(id: usize) -> bool {
        id == 1403
    }

    open spec fn production_id(self) -> usize {
        match self {
            Self::ABSTRACT_LINK_PtrNodeName_OptExtendingSimple_CreateLinkSDLCommandsBlock => 1403,
        }
    }

    fn from_id(_id: usize) -> Self {
        Self::ABSTRACT_LINK_PtrNodeName_OptExtendingSimple_CreateLinkSDLCommandsBlock
    }
}

impl FromId for LinkDeclarationShort {
    open spec fn has_production(id: usize) -> bool {
        id == 1404
    }

    open spec fn production_id(self) -> usize {
        match self {
            Self::ABSTRACT_LINK_PtrNodeName_OptExtendingSimple => 1404,
        }
    }

    fn from_id(_id: usize) -> Self {
        Self::ABSTRACT_LINK_PtrNodeName_OptExtendingSimple
    }
}

impl FromId for MigrationStmt {
    open spec fn has_production(id: usize) -> bool {
        1405 <= id <= 1413
    }

    open spec fn production_id(self) -> usize {
        match self {
            Self::AbortMigrationStmt => 1405,
            Self::AlterCurrentMigrationStmt => 1406,
            Self::AlterMigrationStmt => 1407,
            Self::CommitMigrationStmt => 1408,
            Self::CreateMigrationStmt => 1409,
            Self::DropMigrationStmt => 1410,
            Self::PopulateMigrationStmt => 1411,
            Self::ResetSchemaStmt => 1412,
            Self::StartMigrationStmt => 1413,
        }
    }

    fn from_id(id: usize) -> Self {
        match id {
            1405 => Self::AbortMigrationStmt,
            1406 => Self::AlterCurrentMigrationStmt,
            1407 => Self::AlterMigrationStmt,
            1408 => Self::CommitMigrationStmt,
            1409 => Self::CreateMigrationStmt,
            1410 => Self::DropMigrationStmt,
            1411 => Self::PopulateMigrationStmt,
            1412 => Self::ResetSchemaStmt,
            _ => Self::StartMigrationStmt,
        }
    }
}

impl FromId for ModuleDeclaration {
    open spec fn has_production(id: usize) -> bool {
        id == 1414
    }

    open spec fn production_id(self) -> usize {
        match self {
            Self::MODULE_ModuleName_SDLCommandBlock => 1414,
        }
    }

    fn from_id(_id: usize) -> Self {
        Self::MODULE_ModuleName_SDLCommandBlock
    }
}

impl FromId for ModuleName {
    open spec fn has_production(id: usize) -> bool {
        1415 <= id <= 1416
    }

    open spec fn production_id(self) -> usize {
        match self {
            Self::DotName => 1415,
            Self::ModuleName_DOUBLECOLON_DotName => 1416,
        }
    }

    fn from_id(id: usize) -> Self {
        match id {
            1415 => Self::DotName,
            _ => Self::ModuleName_DOUBLECOLON_DotName,
        }
    }
}

impl FromId for NamedTuple {
    open spec fn has_production(id: usize) -> bool {
        id == 1417
    }

    open spec fn production_id(self) -> usize {
        match self {
            Self::LPAREN_NamedTupleElementList_RPAREN => 1417,
        }
    }

    fn from_id(_id: usize) -> Self {
        Self::LPAREN_NamedTupleElementList_RPAREN
    }
}

impl FromId for NamedTupleElement {
    open spec fn has_production(id: usize) -> bool {
        id == 1418
    }

    open spec fn production_id(self) -> usize {
        match self {
            Self::ShortNodeName_ASSIGN_GenExpr => 1418,
        }
    }

    fn from_id(_id: usize) -> Self {
        Self::ShortNodeName_ASSIGN_GenExpr
    }
}

impl FromId for NamedTupleElementList {
    open spec fn has_production(id: usize) -> bool {
        1419 <= id <= 1420
    }

    open spec fn production_id(self) -> usize {
        match self {
            Self::NamedTupleElementListInner => 1419,
            Self::NamedTupleElementListInner_COMMA => 1420,
        }
    }

    fn from_id(id: usize) -> Self {
        match id {
            1419 => Self::NamedTupleElementListInner,
            _ => Self::NamedTupleElementListInner_COMMA,
        }
    }
}

impl FromId for NamedTupleElementListInner {
    open spec fn has_production(id: usize) -> bool {
        1421 <= id <= 1422
    }

    open spec fn production_id(self) -> usize {
        match self {
            Self::NamedTupleElement => 1421,
            Self::NamedTupleElementListInner_COMMA_NamedTupleElement => 1422,
        }
    }

    fn from_id(id: usize) -> Self {
        match id {
            1421 => Self::NamedTupleElement,
            _ => Self::NamedTupleElementListInner_COMMA_NamedTupleElement,
        }
    }
}

impl FromId for NestedQLBlockStmt {
    open spec fn has_production(id: usize) -> bool {
        1423 <= id <= 1425
    }

    open spec fn production_id(self) -> usize {
        match self {
            Self::OptWithDDLStmt => 1423,
            Self::SetFieldStmt => 1424,
            Self::Stmt => 1425,
        }
    }

    fn from_id(id: usize) -> Self {
        match id {
            1423 => Self::OptWithDDLStmt,
            1424 => Self::SetFieldStmt,
            _ => Self::Stmt,
        }
    }
}

impl FromId for NodeName {
    open spec fn has_production(id: usize) -> bool {
        id == 1426
    }

    open spec fn production_id(self) -> usize {
        match self {
            Self::BaseName => 1426,
        }
    }

    fn from_id(_id: usize) -> Self {
        Self::BaseName
    }
}

impl FromId for NontrivialTypeExpr {
    open spec fn has_production(id: usize) -> bool {
        1428 <= id <= 1431
    }

    open spec fn production_id(self) -> usize {
        match self {
            Self::LPAREN_FullTypeExpr_RPAREN => 1428,
            Self::TYPEOF_Expr => 1429,
            Self::TypeExpr_AMPER_TypeExpr => 1430,
            Self::TypeExpr_PIPE_TypeExpr => 1431,
        }
    }

    fn from_id(id: usize) -> Self {
        match id {
            1428 => Self::LPAREN_FullTypeExpr_RPAREN,
            1429 => Self::TYPEOF_Expr,
            1430 => Self::TypeExpr_AMPER_TypeExpr,
            _ => Self::TypeExpr_PIPE_TypeExpr,
        }
    }
}

impl FromId for ObjectTypeDeclaration {
    open spec fn has_production(id: usize) -> bool {
        1432 <= id <= 1433
    }

    open spec fn production_id(self) -> usize {
        match self {
            Self::ABSTRACT_TYPE_NodeName_OptExtendingSimple_CreateObjectTypeSDLCommandsBlock => 1432,
            Self::TYPE_NodeName_OptExtendingSimple_CreateObjectTypeSDLCommandsBlock => 1433,
        }
    }

    fn from_id(id: usize) -> Self {
        match id {
            1432 => Self::ABSTRACT_TYPE_NodeName_OptExtendingSimple_CreateObjectTypeSDLCommandsBlock,
            _ => Self::TYPE_NodeName_OptExtendingSimple_CreateObjectTypeSDLCommandsBlock,
        }
    }
}

impl FromId for ObjectTypeDeclarationShort {
    open spec fn has_production(id: usize) -> bool {
        1434 <= id <= 1435
    }

    open spec fn production_id(self) -> usize {
        match self {
            Self::ABSTRACT_TYPE_NodeName_OptExtendingSimple => 1434,
            Self::TYPE_NodeName_OptExtendingSimple => 1435,
        }
    }

    fn from_id(id: usize) -> Self {
        match id {
            1434 => Self::ABSTRACT_TYPE_NodeName_OptExtendingSimple,
            _ => Self::TYPE_NodeName_OptExtendingSimple,
        }
    }
}

impl FromId for OffsetClause {
    open spec fn has_production(id: usize) -> bool {
        id == 1436
    }

    open spec fn production_id(self) -> usize {
        match self {
            Self::OFFSET_Expr => 1436,
        }
    }

    fn from_id(_id: usize) -> Self {
        Self::OFFSET_Expr
    }
}

impl FromId for OnExpr {
    open spec fn has_production(id: usize) -> bool {
        id == 1437
    }

    open spec fn production_id(self) -> usize {
        match self {
            Self::ON_ParenExpr => 1437,
        }
    }

    fn from_id(_id: usize) -> Self {
        Self::ON_ParenExpr
    }
}

impl FromId for OnSourceDeleteResetStmt {
    open spec fn has_production(id: usize) -> bool {
        id == 1438
    }

    open spec fn production_id(self) -> usize {
        match self {
            Self::RESET_ON_SOURCE_DELETE => 1438,
        }
    }

    fn from_id(_id: usize) -> Self {
        Self::RESET_ON_SOURCE_DELETE
    }
}

impl FromId for OnSourceDeleteStmt {
    open spec fn has_production(id: usize) -> bool {
        1439 <= id <= 1441
    }

    open spec fn production_id(self) -> usize {
        match self {
            Self::ON_SOURCE_DELETE_ALLOW => 1439,
            Self::ON_SOURCE_DELETE_DELETE_TARGET => 1440,
            Self::ON_SOURCE_DELETE_DELETE_TARGET_IF_ORPHAN => 1441,
        }
    }

    fn from_id(id: usize) -> Self {
        match id {
            1439 => Self::ON_SOURCE_DELETE_ALLOW,
            1440 => Self::ON_SOURCE_DELETE_DELETE_TARGET,
            _ => Self::ON_SOURCE_DELETE_DELETE_TARGET_IF_ORPHAN,
        }
    }
}

impl FromId for OnTargetDeleteResetStmt {
    open spec fn has_production(id: usize) -> bool {
        id == 1442
    }

    open spec fn production_id(self) -> usize {
        match self {
            Self::RESET_ON_TARGET_DELETE => 1442,
        }
    }

    fn from_id(_id: usize) -> Self {
        Self::RESET_ON_TARGET_DELETE
    }
}

impl FromId for OnTargetDeleteStmt {
    open spec fn has_production(id: usize) -> bool {
        1443 <= id <= 1446
    }

    open spec fn production_id(self) -> usize {
        match self {
            Self::ON_TARGET_DELETE_ALLOW => 1443,
            Self::ON_TARGET_DELETE_DEFERRED_RESTRICT => 1444,
            Self::ON_TARGET_DELETE_DELETE_SOURCE => 1445,
            Self::ON_TARGET_DELETE_RESTRICT => 1446,
        }
    }

    fn from_id(id: usize) -> Self {
        match id {
            1443 => Self::ON_TARGET_DELETE_ALLOW,
            1444 => Self::ON_TARGET_DELETE_DEFERRED_RESTRICT,
            1445 => Self::ON_TARGET_DELETE_DELETE_SOURCE,
            _ => Self::ON_TARGET_DELETE_RESTRICT,
        }
    }
}

impl FromId for OperatorCode {
    open spec fn has_production(id: usize) -> bool {
        1447 <= id <= 1450
    }

    open spec fn production_id(self) -> usize {
        match self {
            Self::USING_Identifier_BaseStringConstant => 1447,
            Self::USING_Identifier_EXPRESSION => 1448,
            Self::USING_Identifier_FUNCTION_BaseStringConstant => 1449,
            Self::USING_Identifier_OPERATOR_BaseStringConstant => 1450,
        }
    }

    fn from_id(id: usize) -> Self {
        match id {
            1447 => Self::USING_Identifier_BaseStringConstant,
            1448 => Self::USING_Identifier_EXPRESSION,
            1449 => Self::USING_Identifier_FUNCTION_BaseStringConstant,
            _ => Self::USING_Identifier_OPERATOR_BaseStringConstant,
        }
    }
}

impl FromId for OperatorKind {
    open spec fn has_production(id: usize) -> bool {
        1451 <= id <= 1454
    }

    open spec fn production_id(self) -> usize {
        match self {
            Self::INFIX => 1451,
            Self::POSTFIX => 1452,
            Self::PREFIX => 1453,
            Self::TERNARY => 1454,
        }
    }

    fn from_id(id: usize) -> Self {
        match id {
            1451 => Self::INFIX,
            1452 => Self::POSTFIX,
            1453 => Self::PREFIX,
            _ => Self::TERNARY,
        }
    }
}

impl FromId for OptAlterUsingClause {
    open spec fn has_production(id: usize) -> bool {
        1455 <= id <= 1456
    }

    open spec fn production_id(self) -> usize {
        match self {
            Self::USING_ParenExpr => 1455,
            Self::epsilon => 1456,
        }
    }

    fn from_id(id: usize) -> Self {
        match id {
            1455 => Self::USING_ParenExpr,
            _ => Self::epsilon,
        }
    }
}

impl FromId for OptAnySubShape {
    open spec fn has_production(id: usize) -> bool {
        1457 <= id <= 1458
    }

    open spec fn production_id(self) -> usize {
        match self {
            Self::COLON_Shape => 1457,
            Self::epsilon => 1458,
        }
    }

    fn from_id(id: usize) -> Self {
        match id {
            1457 => Self::COLON_Shape,
            _ => Self::epsilon,
        }
    }
}

impl FromId for OptConcreteConstraintArgList {
    open spec fn has_production(id: usize) -> bool {
        1459 <= id <= 1460
    }

    open spec fn production_id(self) -> usize {
        match self {
            Self::LPAREN_OptPosCallArgList_RPAREN => 1459,
            Self::epsilon => 1460,
        }
    }

    fn from_id(id: usize) -> Self {
        match id {
            1459 => Self::LPAREN_OptPosCallArgList_RPAREN,
            _ => Self::epsilon,
        }
    }
}

impl FromId for OptCreateAccessPolicyCommandsBlock {
    open spec fn has_production(id: usize) -> bool {
        1461 <= id <= 1462
    }

    open spec fn production_id(self) -> usize {
        match self {
            Self::CreateAccessPolicyCommandsBlock => 1461,
            Self::epsilon => 1462,
        }
    }

    fn from_id(id: usize) -> Self {
        match id {
            1461 => Self::CreateAccessPolicyCommandsBlock,
            _ => Self::epsilon,
        }
    }
}

impl FromId for OptCreateAnnotationCommandsBlock {
    open spec fn has_production(id: usize) -> bool {
        1463 <= id <= 1464
    }

    open spec fn production_id(self) -> usize {
        match self {
            Self::CreateAnnotationCommandsBlock => 1463,
            Self::epsilon => 1464,
        }
    }

    fn from_id(id: usize) -> Self {
        match id {
            1463 => Self::CreateAnnotationCommandsBlock,
            _ => Self::epsilon,
        }
    }
}

impl FromId for OptCreateCommandsBlock {
    open spec fn has_production(id: usize) -> bool {
        1465 <= id <= 1466
    }

    open spec fn production_id(self) -> usize {
        match self {
            Self::CreateCommandsBlock => 1465,
            Self::epsilon => 1466,
        }
    }

    fn from_id(id: usize) -> Self {
        match id {
            1465 => Self::CreateCommandsBlock,
            _ => Self::epsilon,
        }
    }
}

impl FromId for OptCreateConcreteLinkCommandsBlock {
    open spec fn has_production(id: usize) -> bool {
        1467 <= id <= 1468
    }

    open spec fn production_id(self) -> usize {
        match self {
            Self::CreateConcreteLinkCommandsBlock => 1467,
            Self::epsilon => 1468,
        }
    }

    fn from_id(id: usize) -> Self {
        match id {
            1467 => Self::CreateConcreteLinkCommandsBlock,
            _ => Self::epsilon,
        }
    }
}

impl FromId for OptCreateConcretePropertyCommandsBlock {
    open spec fn has_production(id: usize) -> bool {
        1469 <= id <= 1470
    }

    open spec fn production_id(self) -> usize {
        match self {
            Self::CreateConcretePropertyCommandsBlock => 1469,
            Self::epsilon => 1470,
        }
    }

    fn from_id(id: usize) -> Self {
        match id {
            1469 => Self::CreateConcretePropertyCommandsBlock,
            _ => Self::epsilon,
        }
    }
}

impl FromId for OptCreateDatabaseCommandsBlock {
    open spec fn has_production(id: usize) -> bool {
        1471 <= id <= 1472
    }

    open spec fn production_id(self) -> usize {
        match self {
            Self::CreateDatabaseCommandsBlock => 1471,
            Self::epsilon => 1472,
        }
    }

    fn from_id(id: usize) -> Self {
        match id {
            1471 => Self::CreateDatabaseCommandsBlock,
            _ => Self::epsilon,
        }
    }
}

impl FromId for OptCreateExtensionCommandsBlock {
    open spec fn has_production(id: usize) -> bool {
        1473 <= id <= 1474
    }

    open spec fn production_id(self) -> usize {
        match self {
            Self::CreateExtensionCommandsBlock => 1473,
            Self::epsilon => 1474,
        }
    }

    fn from_id(id: usize) -> Self {
        match id {
            1473 => Self::CreateExtensionCommandsBlock,
            _ => Self::epsilon,
        }
    }
}

impl FromId for OptCreateExtensionPackageCommandsBlock {
    open spec fn has_production(id: usize) -> bool {
        1475 <= id <= 1476
    }

    open spec fn production_id(self) -> usize {
        match self {
            Self::CreateExtensionPackageCommandsBlock => 1475,
            Self::epsilon => 1476,
        }
    }

    fn from_id(id: usize) -> Self {
        match id {
            1475 => Self::CreateExtensionPackageCommandsBlock,
            _ => Self::epsilon,
        }
    }
}

impl FromId for OptCreateGlobalCommandsBlock {
    open spec fn has_production(id: usize) -> bool {
        1477 <= id <= 1478
    }

    open spec fn production_id(self) -> usize {
        match self {
            Self::CreateGlobalCommandsBlock => 1477,
            Self::epsilon => 1478,
        }
    }

    fn from_id(id: usize) -> Self {
        match id {
            1477 => Self::CreateGlobalCommandsBlock,
            _ => Self::epsilon,
        }
    }
}

impl FromId for OptCreateIndexCommandsBlock {
    open spec fn has_production(id: usize) -> bool {
        1479 <= id <= 1480
    }

    open spec fn production_id(self) -> usize {
        match self {
            Self::CreateIndexCommandsBlock => 1479,
            Self::epsilon => 1480,
        }
    }

    fn from_id(id: usize) -> Self {
        match id {
            1479 => Self::CreateIndexCommandsBlock,
            _ => Self::epsilon,
        }
    }
}

impl FromId for OptCreateIndexMatchCommandsBlock {
    open spec fn has_production(id: usize) -> bool {
        1481 <= id <= 1482
    }

    open spec fn production_id(self) -> usize {
        match self {
            Self::CreateIndexMatchCommandsBlock => 1481,
            Self::epsilon => 1482,
        }
    }

    fn from_id(id: usize) -> Self {
        match id {
            1481 => Self::CreateIndexMatchCommandsBlock,
            _ => Self::epsilon,
        }
    }
}

impl FromId for OptCreateLinkCommandsBlock {
    open spec fn has_production(id: usize) -> bool {
        1483 <= id <= 1484
    }

    open spec fn production_id(self) -> usize {
        match self {
            Self::CreateLinkCommandsBlock => 1483,
            Self::epsilon => 1484,
        }
    }

    fn from_id(id: usize) -> Self {
        match id {
            1483 => Self::CreateLinkCommandsBlock,
            _ => Self::epsilon,
        }
    }
}

impl FromId for OptCreateMigrationCommandsBlock {
    open spec fn has_production(id: usize) -> bool {
        1485 <= id <= 1486
    }

    open spec fn production_id(self) -> usize {
        match self {
            Self::CreateMigrationCommandsBlock => 1485,
            Self::epsilon => 1486,
        }
    }

    fn from_id(id: usize) -> Self {
        match id {
            1485 => Self::CreateMigrationCommandsBlock,
            _ => Self::epsilon,
        }
    }
}

impl FromId for OptCreateObjectTypeCommandsBlock {
    open spec fn has_production(id: usize) -> bool {
        1487 <= id <= 1488
    }

    open spec fn production_id(self) -> usize {
        match self {
            Self::CreateObjectTypeCommandsBlock => 1487,
            Self::epsilon => 1488,
        }
    }

    fn from_id(id: usize) -> Self {
        match id {
            1487 => Self::CreateObjectTypeCommandsBlock,
            _ => Self::epsilon,
        }
    }
}

impl FromId for OptCreateOperatorCommandsBlock {
    open spec fn has_production(id: usize) -> bool {
        1489 <= id <= 1490
    }

    open spec fn production_id(self) -> usize {
        match self {
            Self::CreateOperatorCommandsBlock => 1489,
            Self::epsilon => 1490,
        }
    }

    fn from_id(id: usize) -> Self {
        match id {
            1489 => Self::CreateOperatorCommandsBlock,
            _ => Self::epsilon,
        }
    }
}

impl FromId for OptCreatePermissionCommandsBlock {
    open spec fn has_production(id: usize) -> bool {
        1491 <= id <= 1492
    }

    open spec fn production_id(self) -> usize {
        match self {
            Self::CreatePermissionCommandsBlock => 1491,
            Self::epsilon => 1492,
        }
    }

    fn from_id(id: usize) -> Self {
        match id {
            1491 => Self::CreatePermissionCommandsBlock,
            _ => Self::epsilon,
        }
    }
}

impl FromId for OptCreatePropertyCommandsBlock {
    open spec fn has_production(id: usize) -> bool {
        1493 <= id <= 1494
    }

    open spec fn production_id(self) -> usize {
        match self {
            Self::CreatePropertyCommandsBlock => 1493,
            Self::epsilon => 1494,
        }
    }

    fn from_id(id: usize) -> Self {
        match id {
            1493 => Self::CreatePropertyCommandsBlock,
            _ => Self::epsilon,
        }
    }
}

impl FromId for OptCreatePseudoTypeCommandsBlock {
    open spec fn has_production(id: usize) -> bool {
        1495 <= id <= 1496
    }

    open spec fn production_id(self) -> usize {
        match self {
            Self::CreatePseudoTypeCommandsBlock => 1495,
            Self::epsilon => 1496,
        }
    }

    fn from_id(id: usize) -> Self {
        match id {
            1495 => Self::CreatePseudoTypeCommandsBlock,
            _ => Self::epsilon,
        }
    }
}

impl FromId for OptCreateRewriteCommandsBlock {
    open spec fn has_production(id: usize) -> bool {
        1497 <= id <= 1498
    }

    open spec fn production_id(self) -> usize {
        match self {
            Self::CreateRewriteCommandsBlock => 1497,
            Self::epsilon => 1498,
        }
    }

    fn from_id(id: usize) -> Self {
        match id {
            1497 => Self::CreateRewriteCommandsBlock,
            _ => Self::epsilon,
        }
    }
}

impl FromId for OptCreateRoleCommandsBlock {
    open spec fn has_production(id: usize) -> bool {
        1499 <= id <= 1500
    }

    open spec fn production_id(self) -> usize {
        match self {
            Self::CreateRoleCommandsBlock => 1499,
            Self::epsilon => 1500,
        }
    }

    fn from_id(id: usize) -> Self {
        match id {
            1499 => Self::CreateRoleCommandsBlock,
            _ => Self::epsilon,
        }
    }
}

impl FromId for OptCreateScalarTypeCommandsBlock {
    open spec fn has_production(id: usize) -> bool {
        1501 <= id <= 1502
    }

    open spec fn production_id(self) -> usize {
        match self {
            Self::CreateScalarTypeCommandsBlock => 1501,
            Self::epsilon => 1502,
        }
    }

    fn from_id(id: usize) -> Self {
        match id {
            1501 => Self::CreateScalarTypeCommandsBlock,
            _ => Self::epsilon,
        }
    }
}

impl FromId for OptCreateTriggerCommandsBlock {
    open spec fn has_production(id: usize) -> bool {
        1503 <= id <= 1504
    }

    open spec fn production_id(self) -> usize {
        match self {
            Self::CreateTriggerCommandsBlock => 1503,
            Self::epsilon => 1504,
        }
    }

    fn from_id(id: usize) -> Self {
        match id {
            1503 => Self::CreateTriggerCommandsBlock,
            _ => Self::epsilon,
        }
    }
}

impl FromId for OptDefault {
    open spec fn has_production(id: usize) -> bool {
        1505 <= id <= 1506
    }

    open spec fn production_id(self) -> usize {
        match self {
            Self::EQUALS_Expr => 1505,
            Self::epsilon => 1506,
        }
    }

    fn from_id(id: usize) -> Self {
        match id {
            1505 => Self::EQUALS_Expr,
            _ => Self::epsilon,
        }
    }
}

impl FromId for OptDeferred {
    open spec fn has_production(id: usize) -> bool {
        1507 <= id <= 1508
    }

    open spec fn production_id(self) -> usize {
        match self {
            Self::DEFERRED => 1507,
            Self::epsilon => 1508,
        }
    }

    fn from_id(id: usize) -> Self {
        match id {
            1507 => Self::DEFERRED,
            _ => Self::epsilon,
        }
    }
}

impl FromId for OptDelegated {
    open spec fn has_production(id: usize) -> bool {
        1509 <= id <= 1510
    }

    open spec fn production_id(self) -> usize {
        match self {
            Self::DELEGATED => 1509,
            Self::epsilon => 1510,
        }
    }

    fn from_id(id: usize) -> Self {
        match id {
            1509 => Self::DELEGATED,
            _ => Self::epsilon,
        }
    }
}

impl FromId for OptDirection {
    open spec fn has_production(id: usize) -> bool {
        1511 <= id <= 1513
    }

    open spec fn production_id(self) -> usize {
        match self {
            Self::ASC => 1511,
            Self::DESC => 1512,
            Self::epsilon => 1513,
        }
    }

    fn from_id(id: usize) -> Self {
        match id {
            1511 => Self::ASC,
            1512 => Self::DESC,
            _ => Self::epsilon,
        }
    }
}

impl FromId for OptDropConcreteIndexCommandsBlock {
    open spec fn has_production(id: usize) -> bool {
        1514 <= id <= 1515
    }

    open spec fn production_id(self) -> usize {
        match self {
            Self::DropConcreteIndexCommandsBlock => 1514,
            Self::epsilon => 1515,
        }
    }

    fn from_id(id: usize) -> Self {
        match id {
            1514 => Self::DropConcreteIndexCommandsBlock,
            _ => Self::epsilon,
        }
    }
}

impl FromId for OptDropConcreteLinkCommandsBlock {
    open spec fn has_production(id: usize) -> bool {
        1516 <= id <= 1517
    }

    open spec fn production_id(self) -> usize {
        match self {
            Self::DropConcreteLinkCommandsBlock => 1516,
            Self::epsilon => 1517,
        }
    }

    fn from_id(id: usize) -> Self {
        match id {
            1516 => Self::DropConcreteLinkCommandsBlock,
            _ => Self::epsilon,
        }
    }
}

impl FromId for OptDropLinkCommandsBlock {
    open spec fn has_production(id: usize) -> bool {
        1518 <= id <= 1519
    }

    open spec fn production_id(self) -> usize {
        match self {
            Self::DropLinkCommandsBlock => 1518,
            Self::epsilon => 1519,
        }
    }

    fn from_id(id: usize) -> Self {
        match id {
            1518 => Self::DropLinkCommandsBlock,
            _ => Self::epsilon,
        }
    }
}

impl FromId for OptDropObjectTypeCommandsBlock {
    open spec fn has_production(id: usize) -> bool {
        1520 <= id <= 1521
    }

    open spec fn production_id(self) -> usize {
        match self {
            Self::DropObjectTypeCommandsBlock => 1520,
            Self::epsilon => 1521,
        }
    }

    fn from_id(id: usize) -> Self {
        match id {
            1520 => Self::DropObjectTypeCommandsBlock,
            _ => Self::epsilon,
        }
    }
}

impl FromId for OptExceptExpr {
    open spec fn has_production(id: usize) -> bool {
        1522 <= id <= 1523
    }

    open spec fn production_id(self) -> usize {
        match self {
            Self::EXCEPT_ParenExpr => 1522,
            Self::epsilon => 1523,
        }
    }

    fn from_id(id: usize) -> Self {
        match id {
            1522 => Self::EXCEPT_ParenExpr,
            _ => Self::epsilon,
        }
    }
}

impl FromId for OptExprList {
    open spec fn has_production(id: usize) -> bool {
        1524 <= id <= 1525
    }

    open spec fn production_id(self) -> usize {
        match self {
            Self::ExprList => 1524,
            Self::epsilon => 1525,
        }
    }

    fn from_id(id: usize) -> Self {
        match id {
            1524 => Self::ExprList,
            _ => Self::epsilon,
        }
    }
}

impl FromId for OptExtending {
    open spec fn has_production(id: usize) -> bool {
        1526 <= id <= 1527
    }

    open spec fn production_id(self) -> usize {
        match self {
            Self::Extending => 1526,
            Self::epsilon => 1527,
        }
    }

    fn from_id(id: usize) -> Self {
        match id {
            1526 => Self::Extending,
            _ => Self::epsilon,
        }
    }
}

impl FromId for OptExtendingSimple {
    open spec fn has_production(id: usize) -> bool {
        1528 <= id <= 1529
    }

    open spec fn production_id(self) -> usize {
        match self {
            Self::ExtendingSimple => 1528,
            Self::epsilon => 1529,
        }
    }

    fn from_id(id: usize) -> Self {
        match id {
            1528 => Self::ExtendingSimple,
            _ => Self::epsilon,
        }
    }
}

impl FromId for OptExtensionVersion {
    open spec fn has_production(id: usize) -> bool {
        1530 <= id <= 1531
    }

    open spec fn production_id(self) -> usize {
        match self {
            Self::ExtensionVersion => 1530,
            Self::epsilon => 1531,
        }
    }

    fn from_id(id: usize) -> Self {
        match id {
            1530 => Self::ExtensionVersion,
            _ => Self::epsilon,
        }
    }
}

impl FromId for OptFilterClause {
    open spec fn has_production(id: usize) -> bool {
        1532 <= id <= 1533
    }

    open spec fn production_id(self) -> usize {
        match self {
            Self::FilterClause => 1532,
            Self::epsilon => 1533,
        }
    }

    fn from_id(id: usize) -> Self {
        match id {
            1532 => Self::FilterClause,
            _ => Self::epsilon,
        }
    }
}

impl FromId for OptFuncArgList {
    open spec fn has_production(id: usize) -> bool {
        1534 <= id <= 1535
    }

    open spec fn production_id(self) -> usize {
        match self {
            Self::FuncArgList => 1534,
            Self::epsilon => 1535,
        }
    }

    fn from_id(id: usize) -> Self {
        match id {
            1534 => Self::FuncArgList,
            _ => Self::epsilon,
        }
    }
}

impl FromId for OptGroupingAlias {
    open spec fn has_production(id: usize) -> bool {
        1536 <= id <= 1537
    }

    open spec fn production_id(self) -> usize {
        match self {
            Self::COMMA_Identifier => 1536,
            Self::epsilon => 1537,
        }
    }

    fn from_id(id: usize) -> Self {
        match id {
            1536 => Self::COMMA_Identifier,
            _ => Self::epsilon,
        }
    }
}

impl FromId for OptIfNotExists {
    open spec fn has_production(id: usize) -> bool {
        1538 <= id <= 1539
    }

    open spec fn production_id(self) -> usize {
        match self {
            Self::IF_NOT_EXISTS => 1538,
            Self::epsilon => 1539,
        }
    }

    fn from_id(id: usize) -> Self {
        match id {
            1538 => Self::IF_NOT_EXISTS,
            _ => Self::epsilon,
        }
    }
}

impl FromId for OptIndexArgList {
    open spec fn has_production(id: usize) -> bool {
        1540 <= id <= 1541
    }

    open spec fn production_id(self) -> usize {
        match self {
            Self::IndexArgList => 1540,
            Self::epsilon => 1541,
        }
    }

    fn from_id(id: usize) -> Self {
        match id {
            1540 => Self::IndexArgList,
            _ => Self::epsilon,
        }
    }
}

impl FromId for OptIndexExtArgList {
    open spec fn has_production(id: usize) -> bool {
        1542 <= id <= 1543
    }

    open spec fn production_id(self) -> usize {
        match self {
            Self::IndexExtArgList => 1542,
            Self::epsilon => 1543,
        }
    }

    fn from_id(id: usize) -> Self {
        match id {
            1542 => Self::IndexExtArgList,
            _ => Self::epsilon,
        }
    }
}

impl FromId for OptMigrationNameParentName {
    open spec fn has_production(id: usize) -> bool {
        1544 <= id <= 1546
    }

    open spec fn production_id(self) -> usize {
        match self {
            Self::ShortNodeName => 1544,
            Self::ShortNodeName_ONTO_ShortNodeName => 1545,
            Self::epsilon => 1546,
        }
    }

    fn from_id(id: usize) -> Self {
        match id {
            1544 => Self::ShortNodeName,
            1545 => Self::ShortNodeName_ONTO_ShortNodeName,
            _ => Self::epsilon,
        }
    }
}

impl FromId for OptNonesOrder {
    open spec fn has_production(id: usize) -> bool {
        1547 <= id <= 1549
    }

    open spec fn production_id(self) -> usize {
        match self {
            Self::EMPTY_FIRST => 1547,
            Self::EMPTY_LAST => 1548,
            Self::epsilon => 1549,
        }
    }

    fn from_id(id: usize) -> Self {
        match id {
            1547 => Self::EMPTY_FIRST,
            1548 => Self::EMPTY_LAST,
            _ => Self::epsilon,
        }
    }
}

impl FromId for OptOnExpr {
    open spec fn has_production(id: usize) -> bool {
        1550 <= id <= 1551
    }

    open spec fn production_id(self) -> usize {
        match self {
            Self::OnExpr => 1550,
            Self::epsilon => 1551,
        }
    }

    fn from_id(id: usize) -> Self {
        match id {
            1550 => Self::OnExpr,
            _ => Self::epsilon,
        }
    }
}

impl FromId for OptParameterKind {
    open spec fn has_production(id: usize) -> bool {
        1552 <= id <= 1553
    }

    open spec fn production_id(self) -> usize {
        match self {
            Self::ParameterKind => 1552,
            Self::epsilon => 1553,
        }
    }

    fn from_id(id: usize) -> Self {
        match id {
            1552 => Self::ParameterKind,
            _ => Self::epsilon,
        }
    }
}

impl FromId for OptPosCallArgList {
    open spec fn has_production(id: usize) -> bool {
        1554 <= id <= 1555
    }

    open spec fn production_id(self) -> usize {
        match self {
            Self::PosCallArgList => 1554,
            Self::epsilon => 1555,
        }
    }

    fn from_id(id: usize) -> Self {
        match id {
            1554 => Self::PosCallArgList,
            _ => Self::epsilon,
        }
    }
}

impl FromId for OptPosition {
    open spec fn has_production(id: usize) -> bool {
        1556 <= id <= 1560
    }

    open spec fn production_id(self) -> usize {
        match self {
            Self::AFTER_NodeName => 1556,
            Self::BEFORE_NodeName => 1557,
            Self::FIRST => 1558,
            Self::LAST => 1559,
            Self::epsilon => 1560,
        }
    }

    fn from_id(id: usize) -> Self {
        match id {
            1556 => Self::AFTER_NodeName,
            1557 => Self::BEFORE_NodeName,
            1558 => Self::FIRST,
            1559 => Self::LAST,
            _ => Self::epsilon,
        }
    }
}

impl FromId for OptPtrQuals {
    open spec fn has_production(id: usize) -> bool {
        1561 <= id <= 1562
    }

    open spec fn production_id(self) -> usize {
        match self {
            Self::PtrQuals => 1561,
            Self::epsilon => 1562,
        }
    }

    fn from_id(id: usize) -> Self {
        match id {
            1561 => Self::PtrQuals,
            _ => Self::epsilon,
        }
    }
}

impl FromId for OptPtrTarget {
    open spec fn has_production(id: usize) -> bool {
        1563 <= id <= 1564
    }

    open spec fn production_id(self) -> usize {
        match self {
            Self::PtrTarget => 1563,
            Self::epsilon => 1564,
        }
    }

    fn from_id(id: usize) -> Self {
        match id {
            1563 => Self::PtrTarget,
            _ => Self::epsilon,
        }
    }
}

impl FromId for OptSelectLimit {
    open spec fn has_production(id: usize) -> bool {
        1565 <= id <= 1566
    }

    open spec fn production_id(self) -> usize {
        match self {
            Self::SelectLimit => 1565,
            Self::epsilon => 1566,
        }
    }

    fn from_id(id: usize) -> Self {
        match id {
            1565 => Self::SelectLimit,
            _ => Self::epsilon,
        }
    }
}

impl FromId for OptSemicolons {
    open spec fn has_production(id: usize) -> bool {
        1567 <= id <= 1568
    }

    open spec fn production_id(self) -> usize {
        match self {
            Self::Semicolons => 1567,
            Self::epsilon => 1568,
        }
    }

    fn from_id(id: usize) -> Self {
        match id {
            1567 => Self::Semicolons,
            _ => Self::epsilon,
        }
    }
}

impl FromId for OptShortExtending {
    open spec fn has_production(id: usize) -> bool {
        1569 <= id <= 1570
    }

    open spec fn production_id(self) -> usize {
        match self {
            Self::ShortExtending => 1569,
            Self::epsilon => 1570,
        }
    }

    fn from_id(id: usize) -> Self {
        match id {
            1569 => Self::ShortExtending,
            _ => Self::epsilon,
        }
    }
}

impl FromId for OptSortClause {
    open spec fn has_production(id: usize) -> bool {
        1571 <= id <= 1572
    }

    open spec fn production_id(self) -> usize {
        match self {
            Self::SortClause => 1571,
            Self::epsilon => 1572,
        }
    }

    fn from_id(id: usize) -> Self {
        match id {
            1571 => Self::SortClause,
            _ => Self::epsilon,
        }
    }
}

impl FromId for OptSuperuser {
    open spec fn has_production(id: usize) -> bool {
        1573 <= id <= 1574
    }

    open spec fn production_id(self) -> usize {
        match self {
            Self::SUPERUSER => 1573,
            Self::epsilon => 1574,
        }
    }

    fn from_id(id: usize) -> Self {
        match id {
            1573 => Self::SUPERUSER,
            _ => Self::epsilon,
        }
    }
}

impl FromId for OptTransactionModeList {
    open spec fn has_production(id: usize) -> bool {
        1575 <= id <= 1576
    }

    open spec fn production_id(self) -> usize {
        match self {
            Self::TransactionModeList => 1575,
            Self::epsilon => 1576,
        }
    }

    fn from_id(id: usize) -> Self {
        match id {
            1575 => Self::TransactionModeList,
            _ => Self::epsilon,
        }
    }
}

impl FromId for OptTypeIntersection {
    open spec fn has_production(id: usize) -> bool {
        1577 <= id <= 1578
    }

    open spec fn production_id(self) -> usize {
        match self {
            Self::TypeIntersection => 1577,
            Self::epsilon => 1578,
        }
    }

    fn from_id(id: usize) -> Self {
        match id {
            1577 => Self::TypeIntersection,
            _ => Self::epsilon,
        }
    }
}

impl FromId for OptTypeQualifier {
    open spec fn has_production(id: usize) -> bool {
        1579 <= id <= 1581
    }

    open spec fn production_id(self) -> usize {
        match self {
            Self::OPTIONAL => 1579,
            Self::SET_OF => 1580,
            Self::epsilon => 1581,
        }
    }

    fn from_id(id: usize) -> Self {
        match id {
            1579 => Self::OPTIONAL,
            1580 => Self::SET_OF,
            _ => Self::epsilon,
        }
    }
}

impl FromId for OptUnlessConflictClause {
    open spec fn has_production(id: usize) -> bool {
        1582 <= id <= 1583
    }

    open spec fn production_id(self) -> usize {
        match self {
            Self::UnlessConflictCause => 1582,
            Self::epsilon => 1583,
        }
    }

    fn from_id(id: usize) -> Self {
        match id {
            1582 => Self::UnlessConflictCause,
            _ => Self::epsilon,
        }
    }
}

impl FromId for OptUsingBlock {
    open spec fn has_production(id: usize) -> bool {
        1584 <= id <= 1585
    }

    open spec fn production_id(self) -> usize {
        match self {
            Self::USING_ParenExpr => 1584,
            Self::epsilon => 1585,
        }
    }

    fn from_id(id: usize) -> Self {
        match id {
            1584 => Self::USING_ParenExpr,
            _ => Self::epsilon,
        }
    }
}

impl FromId for OptUsingClause {
    open spec fn has_production(id: usize) -> bool {
        1586 <= id <= 1587
    }

    open spec fn production_id(self) -> usize {
        match self {
            Self::UsingClause => 1586,
            Self::epsilon => 1587,
        }
    }

    fn from_id(id: usize) -> Self {
        match id {
            1586 => Self::UsingClause,
            _ => Self::epsilon,
        }
    }
}

impl FromId for OptWhenBlock {
    open spec fn has_production(id: usize) -> bool {
        1588 <= id <= 1589
    }

    open spec fn production_id(self) -> usize {
        match self {
            Self::WHEN_ParenExpr => 1588,
            Self::epsilon => 1589,
        }
    }

    fn from_id(id: usize) -> Self {
        match id {
            1588 => Self::WHEN_ParenExpr,
            _ => Self::epsilon,
        }
    }
}

impl FromId for OptWithDDLStmt {
    open spec fn has_production(id: usize) -> bool {
        1590 <= id <= 1591
    }

    open spec fn production_id(self) -> usize {
        match self {
            Self::DDLWithBlock_WithDDLStmt => 1590,
            Self::WithDDLStmt => 1591,
        }
    }

    fn from_id(id: usize) -> Self {
        match id {
            1590 => Self::DDLWithBlock_WithDDLStmt,
            _ => Self::WithDDLStmt,
        }
    }
}

impl FromId for OptionalOptional {
    open spec fn has_production(id: usize) -> bool {
        1592 <= id <= 1593
    }

    open spec fn production_id(self) -> usize {
        match self {
            Self::OPTIONAL => 1592,
            Self::epsilon => 1593,
        }
    }

    fn from_id(id: usize) -> Self {
        match id {
            1592 => Self::OPTIONAL,
            _ => Self::epsilon,
        }
    }
}

impl FromId for OptionallyAliasedExpr {
    open spec fn has_production(id: usize) -> bool {
        1594 <= id <= 1595
    }

    open spec fn production_id(self) -> usize {
        match self {
            Self::AliasedExpr => 1594,
            Self::Expr => 1595,
        }
    }

    fn from_id(id: usize) -> Self {
        match id {
            1594 => Self::AliasedExpr,
            _ => Self::Expr,
        }
    }
}

impl FromId for OrderbyExpr {
    open spec fn has_production(id: usize) -> bool {
        id == 1596
    }

    open spec fn production_id(self) -> usize {
        match self {
            Self::Expr_OptDirection_OptNonesOrder => 1596,
        }
    }

    fn from_id(_id: usize) -> Self {
        Self::Expr_OptDirection_OptNonesOrder
    }
}

impl FromId for OrderbyList {
    open spec fn has_production(id: usize) -> bool {
        1597 <= id <= 1598
    }

    open spec fn production_id(self) -> usize {
        match self {
            Self::OrderbyExpr => 1597,
            Self::OrderbyList_THEN_OrderbyExpr => 1598,
        }
    }

    fn from_id(id: usize) -> Self {
        match id {
            1597 => Self::OrderbyExpr,
            _ => Self::OrderbyList_THEN_OrderbyExpr,
        }
    }
}

impl FromId for ParameterKind {
    open spec fn has_production(id: usize) -> bool {
        1599 <= id <= 1600
    }

    open spec fn production_id(self) -> usize {
        match self {
            Self::NAMEDONLY => 1599,
            Self::VARIADIC => 1600,
        }
    }

    fn from_id(id: usize) -> Self {
        match id {
            1599 => Self::NAMEDONLY,
            _ => Self::VARIADIC,
        }
    }
}

impl FromId for ParenExpr {
    open spec fn has_production(id: usize) -> bool {
        1601 <= id <= 1602
    }

    open spec fn production_id(self) -> usize {
        match self {
            Self::LPAREN_ExprStmt_RPAREN => 1601,
            Self::LPAREN_Expr_RPAREN => 1602,
        }
    }

    fn from_id(id: usize) -> Self {
        match id {
            1601 => Self::LPAREN_ExprStmt_RPAREN,
            _ => Self::LPAREN_Expr_RPAREN,
        }
    }
}

impl FromId for ParenTypeExpr {
    open spec fn has_production(id: usize) -> bool {
        id == 1603
    }

    open spec fn production_id(self) -> usize {
        match self {
            Self::LPAREN_FullTypeExpr_RPAREN => 1603,
        }
    }

    fn from_id(_id: usize) -> Self {
        Self::LPAREN_FullTypeExpr_RPAREN
    }
}

impl FromId for PartialReservedKeyword {
    open spec fn has_production(id: usize) -> bool {
        1604 <= id <= 1606
    }

    open spec fn production_id(self) -> usize {
        match self {
            Self::EXCEPT => 1604,
            Self::INTERSECT => 1605,
            Self::UNION => 1606,
        }
    }

    fn from_id(id: usize) -> Self {
        match id {
            1604 => Self::EXCEPT,
            1605 => Self::INTERSECT,
            _ => Self::UNION,
        }
    }
}

impl FromId for Path {
    open spec fn has_production(id: usize) -> bool {
        id == 1607
    }

    open spec fn production_id(self) -> usize {
        match self {
            Self::Expr_PathStep_P_DOT => 1607,
        }
    }

    fn from_id(_id: usize) -> Self {
        Self::Expr_PathStep_P_DOT
    }
}

impl FromId for PathNodeName {
    open spec fn has_production(id: usize) -> bool {
        id == 1608
    }

    open spec fn production_id(self) -> usize {
        match self {
            Self::PtrIdentifier => 1608,
        }
    }

    fn from_id(_id: usize) -> Self {
        Self::PtrIdentifier
    }
}

impl FromId for PathStep {
    open spec fn has_production(id: usize) -> bool {
        1609 <= id <= 1613
    }

    open spec fn production_id(self) -> usize {
        match self {
            Self::AT_PathNodeName => 1609,
            Self::DOTBW_PathStepName => 1610,
            Self::DOT_ICONST => 1611,
            Self::DOT_PathStepName => 1612,
            Self::TypeIntersection => 1613,
        }
    }

    fn from_id(id: usize) -> Self {
        match id {
            1609 => Self::AT_PathNodeName,
            1610 => Self::DOTBW_PathStepName,
            1611 => Self::DOT_ICONST,
            1612 => Self::DOT_PathStepName,
            _ => Self::TypeIntersection,
        }
    }
}

impl FromId for PathStepName {
    open spec fn has_production(id: usize) -> bool {
        1614 <= id <= 1615
    }

    open spec fn production_id(self) -> usize {
        match self {
            Self::DUNDERTYPE => 1614,
            Self::PathNodeName => 1615,
        }
    }

    fn from_id(id: usize) -> Self {
        match id {
            1614 => Self::DUNDERTYPE,
            _ => Self::PathNodeName,
        }
    }
}

impl FromId for PermissionDeclaration {
    open spec fn has_production(id: usize) -> bool {
        id == 1616
    }

    open spec fn production_id(self) -> usize {
        match self {
            Self::PERMISSION_NodeName_CreatePermissionSDLCommandsBlock => 1616,
        }
    }

    fn from_id(_id: usize) -> Self {
        Self::PERMISSION_NodeName_CreatePermissionSDLCommandsBlock
    }
}

impl FromId for PermissionDeclarationShort {
    open spec fn has_production(id: usize) -> bool {
        id == 1617
    }

    open spec fn production_id(self) -> usize {
        match self {
            Self::PERMISSION_NodeName => 1617,
        }
    }

    fn from_id(_id: usize) -> Self {
        Self::PERMISSION_NodeName
    }
}

impl FromId for PointerName {
    open spec fn has_production(id: usize) -> bool {
        1618 <= id <= 1619
    }

    open spec fn production_id(self) -> usize {
        match self {
            Self::DUNDERTYPE => 1618,
            Self::PtrNodeName => 1619,
        }
    }

    fn from_id(id: usize) -> Self {
        match id {
            1618 => Self::DUNDERTYPE,
            _ => Self::PtrNodeName,
        }
    }
}

impl FromId for PopulateMigrationStmt {
    open spec fn has_production(id: usize) -> bool {
        id == 1620
    }

    open spec fn production_id(self) -> usize {
        match self {
            Self::POPULATE_MIGRATION => 1620,
        }
    }

    fn from_id(_id: usize) -> Self {
        Self::POPULATE_MIGRATION
    }
}

impl FromId for PosCallArg {
    open spec fn has_production(id: usize) -> bool {
        id == 1621
    }

    open spec fn production_id(self) -> usize {
        match self {
            Self::Expr_OptFilterClause_OptSortClause => 1621,
        }
    }

    fn from_id(_id: usize) -> Self {
        Self::Expr_OptFilterClause_OptSortClause
    }
}

impl FromId for PosCallArgList {
    open spec fn has_production(id: usize) -> bool {
        1622 <= id <= 1623
    }

    open spec fn production_id(self) -> usize {
        match self {
            Self::PosCallArg => 1622,
            Self::PosCallArgList_COMMA_PosCallArg => 1623,
        }
    }

    fn from_id(id: usize) -> Self {
        match id {
            1622 => Self::PosCallArg,
            _ => Self::PosCallArgList_COMMA_PosCallArg,
        }
    }
}

impl FromId for PropertyDeclaration {
    open spec fn has_production(id: usize) -> bool {
        id == 1624
    }

    open spec fn production_id(self) -> usize {
        match self {
            Self::ABSTRACT_PROPERTY_PtrNodeName_OptExtendingSimple_CreatePropertySDLCommandsBlock => 1624,
        }
    }

    fn from_id(_id: usize) -> Self {
        Self::ABSTRACT_PROPERTY_PtrNodeName_OptExtendingSimple_CreatePropertySDLCommandsBlock
    }
}

impl FromId for PropertyDeclarationShort {
    open spec fn has_production(id: usize) -> bool {
        id == 1625
    }

    open spec fn production_id(self) -> usize {
        match self {
            Self::ABSTRACT_PROPERTY_PtrNodeName_OptExtendingSimple => 1625,
        }
    }

    fn from_id(_id: usize) -> Self {
        Self::ABSTRACT_PROPERTY_PtrNodeName_OptExtendingSimple
    }
}

impl FromId for PtrIdentifier {
    open spec fn has_production(id: usize) -> bool {
        1626 <= id <= 1627
    }

    open spec fn production_id(self) -> usize {
        match self {
            Self::Identifier => 1626,
            Self::PartialReservedKeyword => 1627,
        }
    }

    fn from_id(id: usize) -> Self {
        match id {
            1626 => Self::Identifier,
            _ => Self::PartialReservedKeyword,
        }
    }
}

impl FromId for PtrName {
    open spec fn has_production(id: usize) -> bool {
        1628 <= id <= 1629
    }

    open spec fn production_id(self) -> usize {
        match self {
            Self::PtrIdentifier => 1628,
            Self::QualifiedName => 1629,
        }
    }

    fn from_id(id: usize) -> Self {
        match id {
            1628 => Self::PtrIdentifier,
            _ => Self::QualifiedName,
        }
    }
}

impl FromId for PtrNodeName {
    open spec fn has_production(id: usize) -> bool {
        id == 1630
    }

    open spec fn production_id(self) -> usize {
        match self {
            Self::PtrName => 1630,
        }
    }

    fn from_id(_id: usize) -> Self {
        Self::PtrName
    }
}

impl FromId for PtrQualifiedNodeName {
    open spec fn has_production(id: usize) -> bool {
        id == 1631
    }

    open spec fn production_id(self) -> usize {
        match self {
            Self::QualifiedName => 1631,
        }
    }

    fn from_id(_id: usize) -> Self {
        Self::QualifiedName
    }
}

impl FromId for PtrQuals {
    open spec fn has_production(id: usize) -> bool {
        1632 <= id <= 1639
    }

    open spec fn production_id(self) -> usize {
        match self {
            Self::MULTI => 1632,
            Self::OPTIONAL => 1633,
            Self::OPTIONAL_MULTI => 1634,
            Self::OPTIONAL_SINGLE => 1635,
            Self::REQUIRED => 1636,
            Self::REQUIRED_MULTI => 1637,
            Self::REQUIRED_SINGLE => 1638,
            Self::SINGLE => 1639,
        }
    }

    fn from_id(id: usize) -> Self {
        match id {
            1632 => Self::MULTI,
            1633 => Self::OPTIONAL,
            1634 => Self::OPTIONAL_MULTI,
            1635 => Self::OPTIONAL_SINGLE,
            1636 => Self::REQUIRED,
            1637 => Self::REQUIRED_MULTI,
            1638 => Self::REQUIRED_SINGLE,
            _ => Self::SINGLE,
        }
    }
}

impl FromId for PtrTarget {
    open spec fn has_production(id: usize) -> bool {
        1640 <= id <= 1641
    }

    open spec fn production_id(self) -> usize {
        match self {
            Self::ARROW_FullTypeExpr => 1640,
            Self::COLON_FullTypeExpr => 1641,
        }
    }

    fn from_id(id: usize) -> Self {
        match id {
            1640 => Self::ARROW_FullTypeExpr,
            _ => Self::COLON_FullTypeExpr,
        }
    }
}

impl FromId for QualifiedName {
    open spec fn has_production(id: usize) -> bool {
        1642 <= id <= 1643
    }

    open spec fn production_id(self) -> usize {
        match self {
            Self::DUNDERSTD_DOUBLECOLON_ColonedIdents => 1642,
            Self::Identifier_DOUBLECOLON_ColonedIdents => 1643,
        }
    }

    fn from_id(id: usize) -> Self {
        match id {
            1642 => Self::DUNDERSTD_DOUBLECOLON_ColonedIdents,
            _ => Self::Identifier_DOUBLECOLON_ColonedIdents,
        }
    }
}

impl FromId for RenameStmt {
    open spec fn has_production(id: usize) -> bool {
        id == 1644
    }

    open spec fn production_id(self) -> usize {
        match self {
            Self::RENAME_TO_NodeName => 1644,
        }
    }

    fn from_id(_id: usize) -> Self {
        Self::RENAME_TO_NodeName
    }
}

impl FromId for ReservedKeyword {
    open spec fn has_production(id: usize) -> bool {
        1645 <= id <= 1730
    }

    open spec fn production_id(self) -> usize {
        match self {
            Self::ADMINISTER => 1645,
            Self::ALTER => 1646,
            Self::ANALYZE => 1647,
            Self::AND => 1648,
            Self::ANYARRAY => 1649,
            Self::ANYOBJECT => 1650,
            Self::ANYTUPLE => 1651,
            Self::ANYTYPE => 1652,
            Self::BEGIN => 1653,
            Self::BY => 1654,
            Self::CASE => 1655,
            Self::CHECK => 1656,
            Self::COMMIT => 1657,
            Self::CONFIGURE => 1658,
            Self::CREATE => 1659,
            Self::DEALLOCATE => 1660,
            Self::DELETE => 1661,
            Self::DESCRIBE => 1662,
            Self::DETACHED => 1663,
            Self::DISCARD => 1664,
            Self::DISTINCT => 1665,
            Self::DO => 1666,
            Self::DROP => 1667,
            Self::DUNDERDEFAULT => 1668,
            Self::DUNDEREDGEDBSYS => 1669,
            Self::DUNDEREDGEDBTPL => 1670,
            Self::DUNDERNEW => 1671,
            Self::DUNDEROLD => 1672,
            Self::DUNDERSOURCE => 1673,
            Self::DUNDERSPECIFIED => 1674,
            Self::DUNDERSTD => 1675,
            Self::DUNDERSUBJECT => 1676,
            Self::DUNDERTYPE => 1677,
            Self::ELSE => 1678,
            Self::END => 1679,
            Self::EXISTS => 1680,
            Self::EXPLAIN => 1681,
            Self::EXTENDING => 1682,
            Self::FALSE => 1683,
            Self::FETCH => 1684,
            Self::FILTER => 1685,
            Self::FOR => 1686,
            Self::GET => 1687,
            Self::GLOBAL => 1688,
            Self::GRANT => 1689,
            Self::GROUP => 1690,
            Self::IF => 1691,
            Self::ILIKE => 1692,
            Self::IMPORT => 1693,
            Self::IN => 1694,
            Self::INSERT => 1695,
            Self::INTROSPECT => 1696,
            Self::IS => 1697,
            Self::LIKE => 1698,
            Self::LIMIT => 1699,
            Self::LISTEN => 1700,
            Self::LOAD => 1701,
            Self::LOCK => 1702,
            Self::MATCH => 1703,
            Self::MODULE => 1704,
            Self::MOVE => 1705,
            Self::NEVER => 1706,
            Self::NOT => 1707,
            Self::NOTIFY => 1708,
            Self::OFFSET => 1709,
            Self::ON => 1710,
            Self::OPTIONAL => 1711,
            Self::OR => 1712,
            Self::OVER => 1713,
            Self::PARTITION => 1714,
            Self::PREPARE => 1715,
            Self::RAISE => 1716,
            Self::REFRESH => 1717,
            Self::REVOKE => 1718,
            Self::ROLLBACK => 1719,
            Self::SELECT => 1720,
            Self::SET => 1721,
            Self::SINGLE => 1722,
            Self::START => 1723,
            Self::TRUE => 1724,
            Self::TYPEOF => 1725,
            Self::UPDATE => 1726,
            Self::VARIADIC => 1727,
            Self::WHEN => 1728,
            Self::WINDOW => 1729,
            Self::WITH => 1730,
        }
    }

    fn from_id(id: usize) -> Self {
        match id {
            1645 => Self::ADMINISTER,
            1646 => Self::ALTER,
            1647 => Self::ANALYZE,
            1648 => Self::AND,
            1649 => Self::ANYARRAY,
            1650 => Self::ANYOBJECT,
            1651 => Self::ANYTUPLE,
            1652 => Self::ANYTYPE,
            1653 => Self::BEGIN,
            1654 => Self::BY,
            1655 => Self::CASE,
            1656 => Self::CHECK,
            1657 => Self::COMMIT,
            1658 => Self::CONFIGURE,
            1659 => Self::CREATE,
            1660 => Self::DEALLOCATE,
            1661 => Self::DELETE,
            1662 => Self::DESCRIBE,
            1663 => Self::DETACHED,
            1664 => Self::DISCARD,
            1665 => Self::DISTINCT,
            1666 => Self::DO,
            1667 => Self::DROP,
            1668 => Self::DUNDERDEFAULT,
            1669 => Self::DUNDEREDGEDBSYS,
            1670 => Self::DUNDEREDGEDBTPL,
            1671 => Self::DUNDERNEW,
            1672 => Self::DUNDEROLD,
            1673 => Self::DUNDERSOURCE,
            1674 => Self::DUNDERSPECIFIED,
            1675 => Self::DUNDERSTD,
            1676 => Self::DUNDERSUBJECT,
            1677 => Self::DUNDERTYPE,
            1678 => Self::ELSE,
            1679 => Self::END,
            1680 => Self::EXISTS,
            1681 => Self::EXPLAIN,
            1682 => Self::EXTENDING,
            1683 => Self::FALSE,
            1684 => Self::FETCH,
            1685 => Self::FILTER,
            1686 => Self::FOR,
            1687 => Self::GET,
            1688 => Self::GLOBAL,
            1689 => Self::GRANT,
            1690 => Self::GROUP,
            1691 => Self::IF,
            1692 => Self::ILIKE,
            1693 => Self::IMPORT,
            1694 => Self::IN,
            1695 => Self::INSERT,
            1696 => Self::INTROSPECT,
            1697 => Self::IS,
            1698 => Self::LIKE,
            1699 => Self::LIMIT,
            1700 => Self::LISTEN,
            1701 => Self::LOAD,
            1702 => Self::LOCK,
            1703 => Self::MATCH,
            1704 => Self::MODULE,
            1705 => Self::MOVE,
            1706 => Self::NEVER,
            1707 => Self::NOT,
            1708 => Self::NOTIFY,
            1709 => Self::OFFSET,
            1710 => Self::ON,
            1711 => Self::OPTIONAL,
            1712 => Self::OR,
            1713 => Self::OVER,
            1714 => Self::PARTITION,
            1715 => Self::PREPARE,
            1716 => Self::RAISE,
            1717 => Self::REFRESH,
            1718 => Self::REVOKE,
            1719 => Self::ROLLBACK,
            1720 => Self::SELECT,
            1721 => Self::SET,
            1722 => Self::SINGLE,
            1723 => Self::START,
            1724 => Self::TRUE,
            1725 => Self::TYPEOF,
            1726 => Self::UPDATE,
            1727 => Self::VARIADIC,
            1728 => Self::WHEN,
            1729 => Self::WINDOW,
            _ => Self::WITH,
        }
    }
}

impl FromId for ResetFieldStmt {
    open spec fn has_production(id: usize) -> bool {
        1731 <= id <= 1732
    }

    open spec fn production_id(self) -> usize {
        match self {
            Self::RESET_DEFAULT => 1731,
            Self::RESET_IDENT => 1732,
        }
    }

    fn from_id(id: usize) -> Self {
        match id {
            1731 => Self::RESET_DEFAULT,
            _ => Self::RESET_IDENT,
        }
    }
}

impl FromId for ResetSchemaStmt {
    open spec fn has_production(id: usize) -> bool {
        id == 1733
    }

    open spec fn production_id(self) -> usize {
        match self {
            Self::RESET_SCHEMA_TO_NodeName => 1733,
        }
    }

    fn from_id(_id: usize) -> Self {
        Self::RESET_SCHEMA_TO_NodeName
    }
}

impl FromId for ResetStmt {
    open spec fn has_production(id: usize) -> bool {
        1734 <= id <= 1736
    }

    open spec fn production_id(self) -> usize {
        match self {
            Self::RESET_ALIAS_Identifier => 1734,
            Self::RESET_ALIAS_STAR => 1735,
            Self::RESET_MODULE => 1736,
        }
    }

    fn from_id(id: usize) -> Self {
        match id {
            1734 => Self::RESET_ALIAS_Identifier,
            1735 => Self::RESET_ALIAS_STAR,
            _ => Self::RESET_MODULE,
        }
    }
}

impl FromId for RewriteDeclarationBlock {
    open spec fn has_production(id: usize) -> bool {
        id == 1737
    }

    open spec fn production_id(self) -> usize {
        match self {
            Self::REWRITE_RewriteKindList_USING_ParenExpr_CreateRewriteSDLCommandsBlock => 1737,
        }
    }

    fn from_id(_id: usize) -> Self {
        Self::REWRITE_RewriteKindList_USING_ParenExpr_CreateRewriteSDLCommandsBlock
    }
}

impl FromId for RewriteDeclarationShort {
    open spec fn has_production(id: usize) -> bool {
        id == 1738
    }

    open spec fn production_id(self) -> usize {
        match self {
            Self::REWRITE_RewriteKindList_USING_ParenExpr => 1738,
        }
    }

    fn from_id(_id: usize) -> Self {
        Self::REWRITE_RewriteKindList_USING_ParenExpr
    }
}

impl FromId for RewriteKind {
    open spec fn has_production(id: usize) -> bool {
        1739 <= id <= 1740
    }

    open spec fn production_id(self) -> usize {
        match self {
            Self::INSERT => 1739,
            Self::UPDATE => 1740,
        }
    }

    fn from_id(id: usize) -> Self {
        match id {
            1739 => Self::INSERT,
            _ => Self::UPDATE,
        }
    }
}

impl FromId for RewriteKindList {
    open spec fn has_production(id: usize) -> bool {
        1741 <= id <= 1742
    }

    open spec fn production_id(self) -> usize {
        match self {
            Self::RewriteKind => 1741,
            Self::RewriteKindList_COMMA_RewriteKind => 1742,
        }
    }

    fn from_id(id: usize) -> Self {
        match id {
            1741 => Self::RewriteKind,
            _ => Self::RewriteKindList_COMMA_RewriteKind,
        }
    }
}

impl FromId for RoleStmt {
    open spec fn has_production(id: usize) -> bool {
        1743 <= id <= 1745
    }

    open spec fn production_id(self) -> usize {
        match self {
            Self::AlterRoleStmt => 1743,
            Self::CreateRoleStmt => 1744,
            Self::DropRoleStmt => 1745,
        }
    }

    fn from_id(id: usize) -> Self {
        match id {
            1743 => Self::AlterRoleStmt,
            1744 => Self::CreateRoleStmt,
            _ => Self::DropRoleStmt,
        }
    }
}

impl FromId for SDLBlockStatement {
    open spec fn has_production(id: usize) -> bool {
        1746 <= id <= 1757
    }

    open spec fn production_id(self) -> usize {
        match self {
            Self::AliasDeclaration => 1746,
            Self::AnnotationDeclaration => 1747,
            Self::ConstraintDeclaration => 1748,
            Self::FunctionDeclaration => 1749,
            Self::GlobalDeclaration => 1750,
            Self::IndexDeclaration => 1751,
            Self::LinkDeclaration => 1752,
            Self::ModuleDeclaration => 1753,
            Self::ObjectTypeDeclaration => 1754,
            Self::PermissionDeclaration => 1755,
            Self::PropertyDeclaration => 1756,
            Self::ScalarTypeDeclaration => 1757,
        }
    }

    fn from_id(id: usize) -> Self {
        match id {
            1746 => Self::AliasDeclaration,
            1747 => Self::AnnotationDeclaration,
            1748 => Self::ConstraintDeclaration,
            1749 => Self::FunctionDeclaration,
            1750 => Self::GlobalDeclaration,
            1751 => Self::IndexDeclaration,
            1752 => Self::LinkDeclaration,
            1753 => Self::ModuleDeclaration,
            1754 => Self::ObjectTypeDeclaration,
            1755 => Self::PermissionDeclaration,
            1756 => Self::PropertyDeclaration,
            _ => Self::ScalarTypeDeclaration,
        }
    }
}

impl FromId for SDLCommandBlock {
    open spec fn has_production(id: usize) -> bool {
        1758 <= id <= 1762
    }

    open spec fn production_id(self) -> usize {
        match self {
            Self::LBRACE_OptSemicolons_RBRACE => 1758,
            Self::LBRACE_OptSemicolons_SDLStatements_RBRACE => 1759,
            Self::LBRACE_OptSemicolons_SDLShortStatement_RBRACE => 1760,
            Self::LBRACE_OptSemicolons_SDLStatements_OptSemicolons_SDLShortStatement_RBRACE => 1761,
            Self::LBRACE_OptSemicolons_SDLStatements_Semicolons_RBRACE => 1762,
        }
    }

    fn from_id(id: usize) -> Self {
        match id {
            1758 => Self::LBRACE_OptSemicolons_RBRACE,
            1759 => Self::LBRACE_OptSemicolons_SDLStatements_RBRACE,
            1760 => Self::LBRACE_OptSemicolons_SDLShortStatement_RBRACE,
            1761 => Self::LBRACE_OptSemicolons_SDLStatements_OptSemicolons_SDLShortStatement_RBRACE,
            _ => Self::LBRACE_OptSemicolons_SDLStatements_Semicolons_RBRACE,
        }
    }
}

impl FromId for SDLDocument {
    open spec fn has_production(id: usize) -> bool {
        1763 <= id <= 1767
    }

    open spec fn production_id(self) -> usize {
        match self {
            Self::OptSemicolons => 1763,
            Self::OptSemicolons_SDLStatements => 1764,
            Self::OptSemicolons_SDLStatements_Semicolons => 1765,
            Self::OptSemicolons_SDLShortStatement => 1766,
            Self::OptSemicolons_SDLStatements_OptSemicolons_SDLShortStatement => 1767,
        }
    }

    fn from_id(id: usize) -> Self {
        match id {
            1763 => Self::OptSemicolons,
            1764 => Self::OptSemicolons_SDLStatements,
            1765 => Self::OptSemicolons_SDLStatements_Semicolons,
            1766 => Self::OptSemicolons_SDLShortStatement,
            _ => Self::OptSemicolons_SDLStatements_OptSemicolons_SDLShortStatement,
        }
    }
}

impl FromId for SDLShortStatement {
    open spec fn has_production(id: usize) -> bool {
        1768 <= id <= 1780
    }

    open spec fn production_id(self) -> usize {
        match self {
            Self::AliasDeclarationShort => 1768,
            Self::AnnotationDeclarationShort => 1769,
            Self::ConstraintDeclarationShort => 1770,
            Self::ExtensionRequirementDeclaration => 1771,
            Self::FunctionDeclarationShort => 1772,
            Self::FutureRequirementDeclaration => 1773,
            Self::GlobalDeclarationShort => 1774,
            Self::IndexDeclarationShort => 1775,
            Self::LinkDeclarationShort => 1776,
            Self::ObjectTypeDeclarationShort => 1777,
            Self::PermissionDeclarationShort => 1778,
            Self::PropertyDeclarationShort => 1779,
            Self::ScalarTypeDeclarationShort => 1780,
        }
    }

    fn from_id(id: usize) -> Self {
        match id {
            1768 => Self::AliasDeclarationShort,
            1769 => Self::AnnotationDeclarationShort,
            1770 => Self::ConstraintDeclarationShort,
            1771 => Self::ExtensionRequirementDeclaration,
            1772 => Self::FunctionDeclarationShort,
            1773 => Self::FutureRequirementDeclaration,
            1774 => Self::GlobalDeclarationShort,
            1775 => Self::IndexDeclarationShort,
            1776 => Self::LinkDeclarationShort,
            1777 => Self::ObjectTypeDeclarationShort,
            1778 => Self::PermissionDeclarationShort,
            1779 => Self::PropertyDeclarationShort,
            _ => Self::ScalarTypeDeclarationShort,
        }
    }
}

impl FromId for SDLStatement {
    open spec fn has_production(id: usize) -> bool {
        1781 <= id <= 1782
    }

    open spec fn production_id(self) -> usize {
        match self {
            Self::SDLBlockStatement => 1781,
            Self::SDLShortStatement_SEMICOLON => 1782,
        }
    }

    fn from_id(id: usize) -> Self {
        match id {
            1781 => Self::SDLBlockStatement,
            _ => Self::SDLShortStatement_SEMICOLON,
        }
    }
}

impl FromId for SDLStatements {
    open spec fn has_production(id: usize) -> bool {
        1783 <= id <= 1784
    }

    open spec fn production_id(self) -> usize {
        match self {
            Self::SDLStatement => 1783,
            Self::SDLStatements_OptSemicolons_SDLStatement => 1784,
        }
    }

    fn from_id(id: usize) -> Self {
        match id {
            1783 => Self::SDLStatement,
            _ => Self::SDLStatements_OptSemicolons_SDLStatement,
        }
    }
}

impl FromId for ScalarTypeDeclaration {
    open spec fn has_production(id: usize) -> bool {
        1785 <= id <= 1786
    }

    open spec fn production_id(self) -> usize {
        match self {
            Self::ABSTRACT_SCALAR_TYPE_NodeName_OptExtending_CreateScalarTypeSDLCommandsBlock => 1785,
            Self::SCALAR_TYPE_NodeName_OptExtending_CreateScalarTypeSDLCommandsBlock => 1786,
        }
    }

    fn from_id(id: usize) -> Self {
        match id {
            1785 => Self::ABSTRACT_SCALAR_TYPE_NodeName_OptExtending_CreateScalarTypeSDLCommandsBlock,
            _ => Self::SCALAR_TYPE_NodeName_OptExtending_CreateScalarTypeSDLCommandsBlock,
        }
    }
}

impl FromId for ScalarTypeDeclarationShort {
    open spec fn has_production(id: usize) -> bool {
        1787 <= id <= 1788
    }

    open spec fn production_id(self) -> usize {
        match self {
            Self::ABSTRACT_SCALAR_TYPE_NodeName_OptExtending => 1787,
            Self::SCALAR_TYPE_NodeName_OptExtending => 1788,
        }
    }

    fn from_id(id: usize) -> Self {
        match id {
            1787 => Self::ABSTRACT_SCALAR_TYPE_NodeName_OptExtending,
            _ => Self::SCALAR_TYPE_NodeName_OptExtending,
        }
    }
}

impl FromId for SchemaItem {
    open spec fn has_production(id: usize) -> bool {
        id == 1789
    }

    open spec fn production_id(self) -> usize {
        match self {
            Self::SchemaObjectClass_NodeName => 1789,
        }
    }

    fn from_id(_id: usize) -> Self {
        Self::SchemaObjectClass_NodeName
    }
}

impl FromId for SchemaObjectClass {
    open spec fn has_production(id: usize) -> bool {
        1790 <= id <= 1800
    }

    open spec fn production_id(self) -> usize {
        match self {
            Self::ALIAS => 1790,
            Self::ANNOTATION => 1791,
            Self::CAST => 1792,
            Self::CONSTRAINT => 1793,
            Self::FUNCTION => 1794,
            Self::LINK => 1795,
            Self::MODULE => 1796,
            Self::OPERATOR => 1797,
            Self::PROPERTY => 1798,
            Self::SCALAR_TYPE => 1799,
            Self::TYPE => 1800,
        }
    }

    fn from_id(id: usize) -> Self {
        match id {
            1790 => Self::ALIAS,
            1791 => Self::ANNOTATION,
            1792 => Self::CAST,
            1793 => Self::CONSTRAINT,
            1794 => Self::FUNCTION,
            1795 => Self::LINK,
            1796 => Self::MODULE,
            1797 => Self::OPERATOR,
            1798 => Self::PROPERTY,
            1799 => Self::SCALAR_TYPE,
            _ => Self::TYPE,
        }
    }
}

impl FromId for SelectLimit {
    open spec fn has_production(id: usize) -> bool {
        1801 <= id <= 1803
    }

    open spec fn production_id(self) -> usize {
        match self {
            Self::LimitClause => 1801,
            Self::OffsetClause => 1802,
            Self::OffsetClause_LimitClause => 1803,
        }
    }

    fn from_id(id: usize) -> Self {
        match id {
            1801 => Self::LimitClause,
            1802 => Self::OffsetClause,
            _ => Self::OffsetClause_LimitClause,
        }
    }
}

impl FromId for Semicolons {
    open spec fn has_production(id: usize) -> bool {
        1804 <= id <= 1805
    }

    open spec fn production_id(self) -> usize {
        match self {
            Self::SEMICOLON => 1804,
            Self::Semicolons_SEMICOLON => 1805,
        }
    }

    fn from_id(id: usize) -> Self {
        match id {
            1804 => Self::SEMICOLON,
            _ => Self::Semicolons_SEMICOLON,
        }
    }
}

impl FromId for SessionStmt {
    open spec fn has_production(id: usize) -> bool {
        1806 <= id <= 1807
    }

    open spec fn production_id(self) -> usize {
        match self {
            Self::ResetStmt => 1806,
            Self::SetStmt => 1807,
        }
    }

    fn from_id(id: usize) -> Self {
        match id {
            1806 => Self::ResetStmt,
            _ => Self::SetStmt,
        }
    }
}

impl FromId for SetLiteral {
    open spec fn has_production(id: usize) -> bool {
        id == 1808
    }

    open spec fn production_id(self) -> usize {
        match self {
            Self::LBRACE_OptExprList_RBRACE => 1808,
        }
    }

    fn from_id(_id: usize) -> Self {
        Self::LBRACE_OptExprList_RBRACE
    }
}

impl FromId for SetAnnotation {
    open spec fn has_production(id: usize) -> bool {
        id == 1809
    }

    open spec fn production_id(self) -> usize {
        match self {
            Self::ANNOTATION_NodeName_ASSIGN_GenExpr => 1809,
        }
    }

    fn from_id(_id: usize) -> Self {
        Self::ANNOTATION_NodeName_ASSIGN_GenExpr
    }
}

impl FromId for SetCardinalityStmt {
    open spec fn has_production(id: usize) -> bool {
        1810 <= id <= 1812
    }

    open spec fn production_id(self) -> usize {
        match self {
            Self::RESET_CARDINALITY_OptAlterUsingClause => 1810,
            Self::SET_MULTI => 1811,
            Self::SET_SINGLE_OptAlterUsingClause => 1812,
        }
    }

    fn from_id(id: usize) -> Self {
        match id {
            1810 => Self::RESET_CARDINALITY_OptAlterUsingClause,
            1811 => Self::SET_MULTI,
            _ => Self::SET_SINGLE_OptAlterUsingClause,
        }
    }
}

impl FromId for SetDelegatedStmt {
    open spec fn has_production(id: usize) -> bool {
        1813 <= id <= 1815
    }

    open spec fn production_id(self) -> usize {
        match self {
            Self::RESET_DELEGATED => 1813,
            Self::SET_DELEGATED => 1814,
            Self::SET_NOT_DELEGATED => 1815,
        }
    }

    fn from_id(id: usize) -> Self {
        match id {
            1813 => Self::RESET_DELEGATED,
            1814 => Self::SET_DELEGATED,
            _ => Self::SET_NOT_DELEGATED,
        }
    }
}

impl FromId for SetField {
    open spec fn has_production(id: usize) -> bool {
        id == 1816
    }

    open spec fn production_id(self) -> usize {
        match self {
            Self::Identifier_ASSIGN_GenExpr => 1816,
        }
    }

    fn from_id(_id: usize) -> Self {
        Self::Identifier_ASSIGN_GenExpr
    }
}

impl FromId for SetFieldStmt {
    open spec fn has_production(id: usize) -> bool {
        id == 1817
    }

    open spec fn production_id(self) -> usize {
        match self {
            Self::SET_Identifier_ASSIGN_GenExpr => 1817,
        }
    }

    fn from_id(_id: usize) -> Self {
        Self::SET_Identifier_ASSIGN_GenExpr
    }
}

impl FromId for SetGlobalTypeStmt {
    open spec fn has_production(id: usize) -> bool {
        1818 <= id <= 1820
    }

    open spec fn production_id(self) -> usize {
        match self {
            Self::RESET_TYPE => 1818,
            Self::SETTYPE_FullTypeExpr_OptAlterUsingClause => 1819,
            Self::SETTYPE_FullTypeExpr_RESET_TO_DEFAULT => 1820,
        }
    }

    fn from_id(id: usize) -> Self {
        match id {
            1818 => Self::RESET_TYPE,
            1819 => Self::SETTYPE_FullTypeExpr_OptAlterUsingClause,
            _ => Self::SETTYPE_FullTypeExpr_RESET_TO_DEFAULT,
        }
    }
}

impl FromId for SetPointerTypeStmt {
    open spec fn has_production(id: usize) -> bool {
        1821 <= id <= 1822
    }

    open spec fn production_id(self) -> usize {
        match self {
            Self::RESET_TYPE => 1821,
            Self::SETTYPE_FullTypeExpr_OptAlterUsingClause => 1822,
        }
    }

    fn from_id(id: usize) -> Self {
        match id {
            1821 => Self::RESET_TYPE,
            _ => Self::SETTYPE_FullTypeExpr_OptAlterUsingClause,
        }
    }
}

impl FromId for SetRequiredInCreateStmt {
    open spec fn has_production(id: usize) -> bool {
        id == 1823
    }

    open spec fn production_id(self) -> usize {
        match self {
            Self::SET_REQUIRED_OptAlterUsingClause => 1823,
        }
    }

    fn from_id(_id: usize) -> Self {
        Self::SET_REQUIRED_OptAlterUsingClause
    }
}

impl FromId for SetRequiredStmt {
    open spec fn has_production(id: usize) -> bool {
        1824 <= id <= 1827
    }

    open spec fn production_id(self) -> usize {
        match self {
            Self::DROP_REQUIRED => 1824,
            Self::RESET_OPTIONALITY => 1825,
            Self::SET_OPTIONAL => 1826,
            Self::SET_REQUIRED_OptAlterUsingClause => 1827,
        }
    }

    fn from_id(id: usize) -> Self {
        match id {
            1824 => Self::DROP_REQUIRED,
            1825 => Self::RESET_OPTIONALITY,
            1826 => Self::SET_OPTIONAL,
            _ => Self::SET_REQUIRED_OptAlterUsingClause,
        }
    }
}

impl FromId for SetStmt {
    open spec fn has_production(id: usize) -> bool {
        1828 <= id <= 1829
    }

    open spec fn production_id(self) -> usize {
        match self {
            Self::SET_ALIAS_Identifier_AS_MODULE_ModuleName => 1828,
            Self::SET_MODULE_ModuleName => 1829,
        }
    }

    fn from_id(id: usize) -> Self {
        match id {
            1828 => Self::SET_ALIAS_Identifier_AS_MODULE_ModuleName,
            _ => Self::SET_MODULE_ModuleName,
        }
    }
}

impl FromId for Shape {
    open spec fn has_production(id: usize) -> bool {
        1830 <= id <= 1831
    }

    open spec fn production_id(self) -> usize {
        match self {
            Self::LBRACE_RBRACE => 1830,
            Self::LBRACE_ShapeElementList_RBRACE => 1831,
        }
    }

    fn from_id(id: usize) -> Self {
        match id {
            1830 => Self::LBRACE_RBRACE,
            _ => Self::LBRACE_ShapeElementList_RBRACE,
        }
    }
}

impl FromId for ShapeElement {
    open spec fn has_production(id: usize) -> bool {
        1832 <= id <= 1833
    }

    open spec fn production_id(self) -> usize {
        match self {
            Self::ComputableShapePointer => 1832,
            Self::ShapePointer_OptAnySubShape_OptFilterClause_OptSortClause_OptSelectLimit => 1833,
        }
    }

    fn from_id(id: usize) -> Self {
        match id {
            1832 => Self::ComputableShapePointer,
            _ => Self::ShapePointer_OptAnySubShape_OptFilterClause_OptSortClause_OptSelectLimit,
        }
    }
}

impl FromId for ShapeElementList {
    open spec fn has_production(id: usize) -> bool {
        1834 <= id <= 1835
    }

    open spec fn production_id(self) -> usize {
        match self {
            Self::ShapeElementListInner => 1834,
            Self::ShapeElementListInner_COMMA => 1835,
        }
    }

    fn from_id(id: usize) -> Self {
        match id {
            1834 => Self::ShapeElementListInner,
            _ => Self::ShapeElementListInner_COMMA,
        }
    }
}

impl FromId for ShapeElementListInner {
    open spec fn has_production(id: usize) -> bool {
        1836 <= id <= 1837
    }

    open spec fn production_id(self) -> usize {
        match self {
            Self::ShapeElement => 1836,
            Self::ShapeElementListInner_COMMA_ShapeElement => 1837,
        }
    }

    fn from_id(id: usize) -> Self {
        match id {
            1836 => Self::ShapeElement,
            _ => Self::ShapeElementListInner_COMMA_ShapeElement,
        }
    }
}

impl FromId for ShapePath {
    open spec fn has_production(id: usize) -> bool {
        1838 <= id <= 1841
    }

    open spec fn production_id(self) -> usize {
        match self {
            Self::AT_PathNodeName => 1838,
            Self::PathStepName_OptTypeIntersection => 1839,
            Self::Splat => 1840,
            Self::TypeIntersection_DOT_PathStepName_OptTypeIntersection => 1841,
        }
    }

    fn from_id(id: usize) -> Self {
        match id {
            1838 => Self::AT_PathNodeName,
            1839 => Self::PathStepName_OptTypeIntersection,
            1840 => Self::Splat,
            _ => Self::TypeIntersection_DOT_PathStepName_OptTypeIntersection,
        }
    }
}

impl FromId for ShapePointer {
    open spec fn has_production(id: usize) -> bool {
        id == 1842
    }

    open spec fn production_id(self) -> usize {
        match self {
            Self::ShapePath => 1842,
        }
    }

    fn from_id(_id: usize) -> Self {
        Self::ShapePath
    }
}

impl FromId for ShortExtending {
    open spec fn has_production(id: usize) -> bool {
        id == 1843
    }

    open spec fn production_id(self) -> usize {
        match self {
            Self::EXTENDING_ShortTypeNameList => 1843,
        }
    }

    fn from_id(_id: usize) -> Self {
        Self::EXTENDING_ShortTypeNameList
    }
}

impl FromId for ShortNodeName {
    open spec fn has_production(id: usize) -> bool {
        id == 1844
    }

    open spec fn production_id(self) -> usize {
        match self {
            Self::Identifier => 1844,
        }
    }

    fn from_id(_id: usize) -> Self {
        Self::Identifier
    }
}

impl FromId for ShortTypeName {
    open spec fn has_production(id: usize) -> bool {
        id == 1845
    }

    open spec fn production_id(self) -> usize {
        match self {
            Self::ShortNodeName => 1845,
        }
    }

    fn from_id(_id: usize) -> Self {
        Self::ShortNodeName
    }
}

impl FromId for ShortTypeNameList {
    open spec fn has_production(id: usize) -> bool {
        1846 <= id <= 1847
    }

    open spec fn production_id(self) -> usize {
        match self {
            Self::ShortTypeName => 1846,
            Self::ShortTypeNameList_COMMA_ShortTypeName => 1847,
        }
    }

    fn from_id(id: usize) -> Self {
        match id {
            1846 => Self::ShortTypeName,
            _ => Self::ShortTypeNameList_COMMA_ShortTypeName,
        }
    }
}

impl FromId for SimpleDelete {
    open spec fn has_production(id: usize) -> bool {
        id == 1848
    }

    open spec fn production_id(self) -> usize {
        match self {
            Self::DELETE_Expr_OptFilterClause_OptSortClause_OptSelectLimit => 1848,
        }
    }

    fn from_id(_id: usize) -> Self {
        Self::DELETE_Expr_OptFilterClause_OptSortClause_OptSelectLimit
    }
}

impl FromId for SimpleFor {
    open spec fn has_production(id: usize) -> bool {
        1849 <= id <= 1850
    }

    open spec fn production_id(self) -> usize {
        match self {
            Self::FOR_OptionalOptional_Identifier_IN_AtomicExpr_UNION_Expr => 1849,
            Self::FOR_OptionalOptional_Identifier_IN_AtomicExpr_ExprStmtSimple => 1850,
        }
    }

    fn from_id(id: usize) -> Self {
        match id {
            1849 => Self::FOR_OptionalOptional_Identifier_IN_AtomicExpr_UNION_Expr,
            _ => Self::FOR_OptionalOptional_Identifier_IN_AtomicExpr_ExprStmtSimple,
        }
    }
}

impl FromId for SimpleGroup {
    open spec fn has_production(id: usize) -> bool {
        id == 1851
    }

    open spec fn production_id(self) -> usize {
        match self {
            Self::GROUP_OptionallyAliasedExpr_OptUsingClause_ByClause => 1851,
        }
    }

    fn from_id(_id: usize) -> Self {
        Self::GROUP_OptionallyAliasedExpr_OptUsingClause_ByClause
    }
}

impl FromId for SimpleInsert {
    open spec fn has_production(id: usize) -> bool {
        id == 1852
    }

    open spec fn production_id(self) -> usize {
        match self {
            Self::INSERT_Expr_OptUnlessConflictClause => 1852,
        }
    }

    fn from_id(_id: usize) -> Self {
        Self::INSERT_Expr_OptUnlessConflictClause
    }
}

impl FromId for SimpleSelect {
    open spec fn has_production(id: usize) -> bool {
        id == 1853
    }

    open spec fn production_id(self) -> usize {
        match self {
            Self::SELECT_OptionallyAliasedExpr_OptFilterClause_OptSortClause_OptSelectLimit => 1853,
        }
    }

    fn from_id(_id: usize) -> Self {
        Self::SELECT_OptionallyAliasedExpr_OptFilterClause_OptSortClause_OptSelectLimit
    }
}

impl FromId for SimpleShapePath {
    open spec fn has_production(id: usize) -> bool {
        1854 <= id <= 1855
    }

    open spec fn production_id(self) -> usize {
        match self {
            Self::AT_PathNodeName => 1854,
            Self::PathStepName => 1855,
        }
    }

    fn from_id(id: usize) -> Self {
        match id {
            1854 => Self::AT_PathNodeName,
            _ => Self::PathStepName,
        }
    }
}

impl FromId for SimpleShapePointer {
    open spec fn has_production(id: usize) -> bool {
        id == 1856
    }

    open spec fn production_id(self) -> usize {
        match self {
            Self::SimpleShapePath => 1856,
        }
    }

    fn from_id(_id: usize) -> Self {
        Self::SimpleShapePath
    }
}

impl FromId for SimpleTypeName {
    open spec fn has_production(id: usize) -> bool {
        1857 <= id <= 1860
    }

    open spec fn production_id(self) -> usize {
        match self {
            Self::ANYOBJECT => 1857,
            Self::ANYTUPLE => 1858,
            Self::ANYTYPE => 1859,
            Self::PtrNodeName => 1860,
        }
    }

    fn from_id(id: usize) -> Self {
        match id {
            1857 => Self::ANYOBJECT,
            1858 => Self::ANYTUPLE,
            1859 => Self::ANYTYPE,
            _ => Self::PtrNodeName,
        }
    }
}

impl FromId for SimpleTypeNameList {
    open spec fn has_production(id: usize) -> bool {
        1861 <= id <= 1862
    }

    open spec fn production_id(self) -> usize {
        match self {
            Self::SimpleTypeName => 1861,
            Self::SimpleTypeNameList_COMMA_SimpleTypeName => 1862,
        }
    }

    fn from_id(id: usize) -> Self {
        match id {
            1861 => Self::SimpleTypeName,
            _ => Self::SimpleTypeNameList_COMMA_SimpleTypeName,
        }
    }
}

impl FromId for SimpleUpdate {
    open spec fn has_production(id: usize) -> bool {
        id == 1863
    }

    open spec fn production_id(self) -> usize {
        match self {
            Self::UPDATE_Expr_OptFilterClause_SET_Shape => 1863,
        }
    }

    fn from_id(_id: usize) -> Self {
        Self::UPDATE_Expr_OptFilterClause_SET_Shape
    }
}

impl FromId for SingleStatement {
    open spec fn has_production(id: usize) -> bool {
        1864 <= id <= 1868
    }

    open spec fn production_id(self) -> usize {
        match self {
            Self::ConfigStmt => 1864,
            Self::DDLStmt => 1865,
            Self::IfThenElseExpr => 1866,
            Self::SessionStmt => 1867,
            Self::Stmt => 1868,
        }
    }

    fn from_id(id: usize) -> Self {
        match id {
            1864 => Self::ConfigStmt,
            1865 => Self::DDLStmt,
            1866 => Self::IfThenElseExpr,
            1867 => Self::SessionStmt,
            _ => Self::Stmt,
        }
    }
}

impl FromId for SortClause {
    open spec fn has_production(id: usize) -> bool {
        id == 1869
    }

    open spec fn production_id(self) -> usize {
        match self {
            Self::ORDERBY_OrderbyList => 1869,
        }
    }

    fn from_id(_id: usize) -> Self {
        Self::ORDERBY_OrderbyList
    }
}

impl FromId for Splat {
    open spec fn has_production(id: usize) -> bool {
        1870 <= id <= 1885
    }

    open spec fn production_id(self) -> usize {
        match self {
            Self::DOUBLESTAR => 1870,
            Self::ParenTypeExpr_DOT_DOUBLESTAR => 1871,
            Self::ParenTypeExpr_DOT_STAR => 1872,
            Self::ParenTypeExpr_TypeIntersection_DOT_DOUBLESTAR => 1873,
            Self::ParenTypeExpr_TypeIntersection_DOT_STAR => 1874,
            Self::PathStepName_DOT_DOUBLESTAR => 1875,
            Self::PathStepName_DOT_STAR => 1876,
            Self::PathStepName_TypeIntersection_DOT_DOUBLESTAR => 1877,
            Self::PathStepName_TypeIntersection_DOT_STAR => 1878,
            Self::PtrQualifiedNodeName_DOT_DOUBLESTAR => 1879,
            Self::PtrQualifiedNodeName_DOT_STAR => 1880,
            Self::PtrQualifiedNodeName_TypeIntersection_DOT_DOUBLESTAR => 1881,
            Self::PtrQualifiedNodeName_TypeIntersection_DOT_STAR => 1882,
            Self::STAR => 1883,
            Self::TypeIntersection_DOT_DOUBLESTAR => 1884,
            Self::TypeIntersection_DOT_STAR => 1885,
        }
    }

    fn from_id(id: usize) -> Self {
        match id {
            1870 => Self::DOUBLESTAR,
            1871 => Self::ParenTypeExpr_DOT_DOUBLESTAR,
            1872 => Self::ParenTypeExpr_DOT_STAR,
            1873 => Self::ParenTypeExpr_TypeIntersection_DOT_DOUBLESTAR,
            1874 => Self::ParenTypeExpr_TypeIntersection_DOT_STAR,
            1875 => Self::PathStepName_DOT_DOUBLESTAR,
            1876 => Self::PathStepName_DOT_STAR,
            1877 => Self::PathStepName_TypeIntersection_DOT_DOUBLESTAR,
            1878 => Self::PathStepName_TypeIntersection_DOT_STAR,
            1879 => Self::PtrQualifiedNodeName_DOT_DOUBLESTAR,
            1880 => Self::PtrQualifiedNodeName_DOT_STAR,
            1881 => Self::PtrQualifiedNodeName_TypeIntersection_DOT_DOUBLESTAR,
            1882 => Self::PtrQualifiedNodeName_TypeIntersection_DOT_STAR,
            1883 => Self::STAR,
            1884 => Self::TypeIntersection_DOT_DOUBLESTAR,
            _ => Self::TypeIntersection_DOT_STAR,
        }
    }
}

impl FromId for StartMigrationStmt {
    open spec fn has_production(id: usize) -> bool {
        1886 <= id <= 1888
    }

    open spec fn production_id(self) -> usize {
        match self {
            Self::START_MIGRATION_TO_SDLCommandBlock => 1886,
            Self::START_MIGRATION_REWRITE => 1887,
            Self::START_MIGRATION_TO_COMMITTED_SCHEMA => 1888,
        }
    }

    fn from_id(id: usize) -> Self {
        match id {
            1886 => Self::START_MIGRATION_TO_SDLCommandBlock,
            1887 => Self::START_MIGRATION_REWRITE,
            _ => Self::START_MIGRATION_TO_COMMITTED_SCHEMA,
        }
    }
}

impl FromId for StatementBlock {
    open spec fn has_production(id: usize) -> bool {
        1889 <= id <= 1890
    }

    open spec fn production_id(self) -> usize {
        match self {
            Self::SingleStatement => 1889,
            Self::StatementBlock_Semicolons_SingleStatement => 1890,
        }
    }

    fn from_id(id: usize) -> Self {
        match id {
            1889 => Self::SingleStatement,
            _ => Self::StatementBlock_Semicolons_SingleStatement,
        }
    }
}

impl FromId for Stmt {
    open spec fn has_production(id: usize) -> bool {
        1891 <= id <= 1895
    }

    open spec fn production_id(self) -> usize {
        match self {
            Self::AdministerStmt => 1891,
            Self::AnalyzeStmt => 1892,
            Self::DescribeStmt => 1893,
            Self::ExprStmt => 1894,
            Self::TransactionStmt => 1895,
        }
    }

    fn from_id(id: usize) -> Self {
        match id {
            1891 => Self::AdministerStmt,
            1892 => Self::AnalyzeStmt,
            1893 => Self::DescribeStmt,
            1894 => Self::ExprStmt,
            _ => Self::TransactionStmt,
        }
    }
}

impl FromId for StringInterpolation {
    open spec fn has_production(id: usize) -> bool {
        id == 1896
    }

    open spec fn production_id(self) -> usize {
        match self {
            Self::STRINTERPSTART_StringInterpolationTail => 1896,
        }
    }

    fn from_id(_id: usize) -> Self {
        Self::STRINTERPSTART_StringInterpolationTail
    }
}

impl FromId for StringInterpolationTail {
    open spec fn has_production(id: usize) -> bool {
        1897 <= id <= 1898
    }

    open spec fn production_id(self) -> usize {
        match self {
            Self::Expr_STRINTERPCONT_StringInterpolationTail => 1897,
            Self::Expr_STRINTERPEND => 1898,
        }
    }

    fn from_id(id: usize) -> Self {
        match id {
            1897 => Self::Expr_STRINTERPCONT_StringInterpolationTail,
            _ => Self::Expr_STRINTERPEND,
        }
    }
}

impl FromId for Subtype {
    open spec fn has_production(id: usize) -> bool {
        1899 <= id <= 1902
    }

    open spec fn production_id(self) -> usize {
        match self {
            Self::BaseNumberConstant => 1899,
            Self::BaseStringConstant => 1900,
            Self::FullTypeExpr => 1901,
            Self::Identifier_COLON_FullTypeExpr => 1902,
        }
    }

    fn from_id(id: usize) -> Self {
        match id {
            1899 => Self::BaseNumberConstant,
            1900 => Self::BaseStringConstant,
            1901 => Self::FullTypeExpr,
            _ => Self::Identifier_COLON_FullTypeExpr,
        }
    }
}

impl FromId for SubtypeList {
    open spec fn has_production(id: usize) -> bool {
        1903 <= id <= 1904
    }

    open spec fn production_id(self) -> usize {
        match self {
            Self::SubtypeListInner => 1903,
            Self::SubtypeListInner_COMMA => 1904,
        }
    }

    fn from_id(id: usize) -> Self {
        match id {
            1903 => Self::SubtypeListInner,
            _ => Self::SubtypeListInner_COMMA,
        }
    }
}

impl FromId for SubtypeListInner {
    open spec fn has_production(id: usize) -> bool {
        1905 <= id <= 1906
    }

    open spec fn production_id(self) -> usize {
        match self {
            Self::Subtype => 1905,
            Self::SubtypeListInner_COMMA_Subtype => 1906,
        }
    }

    fn from_id(id: usize) -> Self {
        match id {
            1905 => Self::Subtype,
            _ => Self::SubtypeListInner_COMMA_Subtype,
        }
    }
}

impl FromId for TransactionMode {
    open spec fn has_production(id: usize) -> bool {
        1907 <= id <= 1912
    }

    open spec fn production_id(self) -> usize {
        match self {
            Self::DEFERRABLE => 1907,
            Self::ISOLATION_REPEATABLE_READ => 1908,
            Self::ISOLATION_SERIALIZABLE => 1909,
            Self::NOT_DEFERRABLE => 1910,
            Self::READ_ONLY => 1911,
            Self::READ_WRITE => 1912,
        }
    }

    fn from_id(id: usize) -> Self {
        match id {
            1907 => Self::DEFERRABLE,
            1908 => Self::ISOLATION_REPEATABLE_READ,
            1909 => Self::ISOLATION_SERIALIZABLE,
            1910 => Self::NOT_DEFERRABLE,
            1911 => Self::READ_ONLY,
            _ => Self::READ_WRITE,
        }
    }
}

impl FromId for TransactionModeList {
    open spec fn has_production(id: usize) -> bool {
        1913 <= id <= 1914
    }

    open spec fn production_id(self) -> usize {
        match self {
            Self::TransactionMode => 1913,
            Self::TransactionModeList_COMMA_TransactionMode => 1914,
        }
    }

    fn from_id(id: usize) -> Self {
        match id {
            1913 => Self::TransactionMode,
            _ => Self::TransactionModeList_COMMA_TransactionMode,
        }
    }
}

impl FromId for TransactionStmt {
    open spec fn has_production(id: usize) -> bool {
        1915 <= id <= 1920
    }

    open spec fn production_id(self) -> usize {
        match self {
            Self::COMMIT => 1915,
            Self::DECLARE_SAVEPOINT_Identifier => 1916,
            Self::RELEASE_SAVEPOINT_Identifier => 1917,
            Self::ROLLBACK => 1918,
            Self::ROLLBACK_TO_SAVEPOINT_Identifier => 1919,
            Self::START_TRANSACTION_OptTransactionModeList => 1920,
        }
    }

    fn from_id(id: usize) -> Self {
        match id {
            1915 => Self::COMMIT,
            1916 => Self::DECLARE_SAVEPOINT_Identifier,
            1917 => Self::RELEASE_SAVEPOINT_Identifier,
            1918 => Self::ROLLBACK,
            1919 => Self::ROLLBACK_TO_SAVEPOINT_Identifier,
            _ => Self::START_TRANSACTION_OptTransactionModeList,
        }
    }
}

impl FromId for TriggerDeclarationBlock {
    open spec fn has_production(id: usize) -> bool {
        id == 1921
    }

    open spec fn production_id(self) -> usize {
        match self {
            Self::TRIGGER_NodeName_TriggerTiming_TriggerKindList_FOR_TriggerScope_OptWhenBlock_DO_ParenExpr_CreateTriggerSDLCommandsBlock => 1921,
        }
    }

    fn from_id(_id: usize) -> Self {
        Self::TRIGGER_NodeName_TriggerTiming_TriggerKindList_FOR_TriggerScope_OptWhenBlock_DO_ParenExpr_CreateTriggerSDLCommandsBlock
    }
}

impl FromId for TriggerDeclarationShort {
    open spec fn has_production(id: usize) -> bool {
        id == 1922
    }

    open spec fn production_id(self) -> usize {
        match self {
            Self::TRIGGER_NodeName_TriggerTiming_TriggerKindList_FOR_TriggerScope_OptWhenBlock_DO_ParenExpr => 1922,
        }
    }

    fn from_id(_id: usize) -> Self {
        Self::TRIGGER_NodeName_TriggerTiming_TriggerKindList_FOR_TriggerScope_OptWhenBlock_DO_ParenExpr
    }
}

impl FromId for TriggerKind {
    open spec fn has_production(id: usize) -> bool {
        1923 <= id <= 1925
    }

    open spec fn production_id(self) -> usize {
        match self {
            Self::DELETE => 1923,
            Self::INSERT => 1924,
            Self::UPDATE => 1925,
        }
    }

    fn from_id(id: usize) -> Self {
        match id {
            1923 => Self::DELETE,
            1924 => Self::INSERT,
            _ => Self::UPDATE,
        }
    }
}

impl FromId for TriggerKindList {
    open spec fn has_production(id: usize) -> bool {
        1926 <= id <= 1927
    }

    open spec fn production_id(self) -> usize {
        match self {
            Self::TriggerKind => 1926,
            Self::TriggerKindList_COMMA_TriggerKind => 1927,
        }
    }

    fn from_id(id: usize) -> Self {
        match id {
            1926 => Self::TriggerKind,
            _ => Self::TriggerKindList_COMMA_TriggerKind,
        }
    }
}

impl FromId for TriggerScope {
    open spec fn has_production(id: usize) -> bool {
        1928 <= id <= 1929
    }

    open spec fn production_id(self) -> usize {
        match self {
            Self::ALL => 1928,
            Self::EACH => 1929,
        }
    }

    fn from_id(id: usize) -> Self {
        match id {
            1928 => Self::ALL,
            _ => Self::EACH,
        }
    }
}

impl FromId for TriggerTiming {
    open spec fn has_production(id: usize) -> bool {
        1930 <= id <= 1931
    }

    open spec fn production_id(self) -> usize {
        match self {
            Self::AFTER => 1930,
            Self::AFTER_COMMIT_OF => 1931,
        }
    }

    fn from_id(id: usize) -> Self {
        match id {
            1930 => Self::AFTER,
            _ => Self::AFTER_COMMIT_OF,
        }
    }
}

impl FromId for Tuple {
    open spec fn has_production(id: usize) -> bool {
        1932 <= id <= 1933
    }

    open spec fn production_id(self) -> usize {
        match self {
            Self::LPAREN_GenExpr_COMMA_OptExprList_RPAREN => 1932,
            Self::LPAREN_RPAREN => 1933,
        }
    }

    fn from_id(id: usize) -> Self {
        match id {
            1932 => Self::LPAREN_GenExpr_COMMA_OptExprList_RPAREN,
            _ => Self::LPAREN_RPAREN,
        }
    }
}

impl FromId for TypeExpr {
    open spec fn has_production(id: usize) -> bool {
        1934 <= id <= 1935
    }

    open spec fn production_id(self) -> usize {
        match self {
            Self::NontrivialTypeExpr => 1934,
            Self::SimpleTypeName => 1935,
        }
    }

    fn from_id(id: usize) -> Self {
        match id {
            1934 => Self::NontrivialTypeExpr,
            _ => Self::SimpleTypeName,
        }
    }
}

impl FromId for TypeIntersection {
    open spec fn has_production(id: usize) -> bool {
        id == 1936
    }

    open spec fn production_id(self) -> usize {
        match self {
            Self::LBRACKET_IS_FullTypeExpr_RBRACKET => 1936,
        }
    }

    fn from_id(_id: usize) -> Self {
        Self::LBRACKET_IS_FullTypeExpr_RBRACKET
    }
}

impl FromId for TypeName {
    open spec fn has_production(id: usize) -> bool {
        1937 <= id <= 1938
    }

    open spec fn production_id(self) -> usize {
        match self {
            Self::CollectionTypeName => 1937,
            Self::SimpleTypeName => 1938,
        }
    }

    fn from_id(id: usize) -> Self {
        match id {
            1937 => Self::CollectionTypeName,
            _ => Self::SimpleTypeName,
        }
    }
}

impl FromId for TypeNameList {
    open spec fn has_production(id: usize) -> bool {
        1939 <= id <= 1940
    }

    open spec fn production_id(self) -> usize {
        match self {
            Self::TypeName => 1939,
            Self::TypeNameList_COMMA_TypeName => 1940,
        }
    }

    fn from_id(id: usize) -> Self {
        match id {
            1939 => Self::TypeName,
            _ => Self::TypeNameList_COMMA_TypeName,
        }
    }
}

impl FromId for UnlessConflictCause {
    open spec fn has_production(id: usize) -> bool {
        id == 1941
    }

    open spec fn production_id(self) -> usize {
        match self {
            Self::UNLESS_CONFLICT_UnlessConflictSpecifier => 1941,
        }
    }

    fn from_id(_id: usize) -> Self {
        Self::UNLESS_CONFLICT_UnlessConflictSpecifier
    }
}

impl FromId for UnlessConflictSpecifier {
    open spec fn has_production(id: usize) -> bool {
        1942 <= id <= 1944
    }

    open spec fn production_id(self) -> usize {
        match self {
            Self::ON_Expr => 1942,
            Self::ON_Expr_ELSE_Expr => 1943,
            Self::epsilon => 1944,
        }
    }

    fn from_id(id: usize) -> Self {
        match id {
            1942 => Self::ON_Expr,
            1943 => Self::ON_Expr_ELSE_Expr,
            _ => Self::epsilon,
        }
    }
}

impl FromId for UnqualifiedPointerName {
    open spec fn has_production(id: usize) -> bool {
        id == 1945
    }

    open spec fn production_id(self) -> usize {
        match self {
            Self::PointerName => 1945,
        }
    }

    fn from_id(_id: usize) -> Self {
        Self::PointerName
    }
}

impl FromId for UnreservedKeyword {
    open spec fn has_production(id: usize) -> bool {
        1946 <= id <= 2056
    }

    open spec fn production_id(self) -> usize {
        match self {
            Self::ABORT => 1946,
            Self::ABSTRACT => 1947,
            Self::ACCESS => 1948,
            Self::AFTER => 1949,
            Self::ALIAS => 1950,
            Self::ALL => 1951,
            Self::ALLOW => 1952,
            Self::ANNOTATION => 1953,
            Self::APPLIED => 1954,
            Self::AS => 1955,
            Self::ASC => 1956,
            Self::ASSIGNMENT => 1957,
            Self::BEFORE => 1958,
            Self::BLOBAL => 1959,
            Self::BRANCH => 1960,
            Self::CARDINALITY => 1961,
            Self::CAST => 1962,
            Self::COMMITTED => 1963,
            Self::CONFIG => 1964,
            Self::CONFLICT => 1965,
            Self::CONSTRAINT => 1966,
            Self::CUBE => 1967,
            Self::CURRENT => 1968,
            Self::DATA => 1969,
            Self::DATABASE => 1970,
            Self::DDL => 1971,
            Self::DECLARE => 1972,
            Self::DEFAULT => 1973,
            Self::DEFERRABLE => 1974,
            Self::DEFERRED => 1975,
            Self::DELEGATED => 1976,
            Self::DENY => 1977,
            Self::DESC => 1978,
            Self::EACH => 1979,
            Self::EMPTY => 1980,
            Self::EXPRESSION => 1981,
            Self::EXTENSION => 1982,
            Self::FINAL => 1983,
            Self::FIRST => 1984,
            Self::FORCE => 1985,
            Self::FROM => 1986,
            Self::FUNCTION => 1987,
            Self::FUTURE => 1988,
            Self::IMPLICIT => 1989,
            Self::INDEX => 1990,
            Self::INFIX => 1991,
            Self::INHERITABLE => 1992,
            Self::INSTANCE => 1993,
            Self::INTO => 1994,
            Self::ISOLATION => 1995,
            Self::JSON => 1996,
            Self::LAST => 1997,
            Self::LINK => 1998,
            Self::MIGRATION => 1999,
            Self::MULTI => 2000,
            Self::NAMED => 2001,
            Self::OBJECT => 2002,
            Self::OF => 2003,
            Self::ONLY => 2004,
            Self::ONTO => 2005,
            Self::OPERATOR => 2006,
            Self::OPTIONALITY => 2007,
            Self::ORDER => 2008,
            Self::ORPHAN => 2009,
            Self::OVERLOADED => 2010,
            Self::OWNED => 2011,
            Self::PACKAGE => 2012,
            Self::PERMISSION => 2013,
            Self::POLICY => 2014,
            Self::POPULATE => 2015,
            Self::POSTFIX => 2016,
            Self::PREFIX => 2017,
            Self::PROPERTY => 2018,
            Self::PROPOSED => 2019,
            Self::PSEUDO => 2020,
            Self::READ => 2021,
            Self::REJECT => 2022,
            Self::RELEASE => 2023,
            Self::RENAME => 2024,
            Self::REPEATABLE => 2025,
            Self::REQUIRED => 2026,
            Self::RESET => 2027,
            Self::RESTRICT => 2028,
            Self::REWRITE => 2029,
            Self::ROLE => 2030,
            Self::ROLES => 2031,
            Self::ROLLUP => 2032,
            Self::SAVEPOINT => 2033,
            Self::SCALAR => 2034,
            Self::SCHEMA => 2035,
            Self::SDL => 2036,
            Self::SERIALIZABLE => 2037,
            Self::SESSION => 2038,
            Self::SOURCE => 2039,
            Self::SUPERUSER => 2040,
            Self::SYSTEM => 2041,
            Self::TARGET => 2042,
            Self::TEMPLATE => 2043,
            Self::TERNARY => 2044,
            Self::TEXT => 2045,
            Self::THEN => 2046,
            Self::TO => 2047,
            Self::TRANSACTION => 2048,
            Self::TRIGGER => 2049,
            Self::TYPE => 2050,
            Self::UNLESS => 2051,
            Self::USING => 2052,
            Self::VERBOSE => 2053,
            Self::VERSION => 2054,
            Self::VIEW => 2055,
            Self::WRITE => 2056,
        }
    }

    fn from_id(id: usize) -> Self {
        match id {
            1946 => Self::ABORT,
            1947 => Self::ABSTRACT,
            1948 => Self::ACCESS,
            1949 => Self::AFTER,
            1950 => Self::ALIAS,
            1951 => Self::ALL,
            1952 => Self::ALLOW,
            1953 => Self::ANNOTATION,
            1954 => Self::APPLIED,
            1955 => Self::AS,
            1956 => Self::ASC,
            1957 => Self::ASSIGNMENT,
            1958 => Self::BEFORE,
            1959 => Self::BLOBAL,
            1960 => Self::BRANCH,
            1961 => Self::CARDINALITY,
            1962 => Self::CAST,
            1963 => Self::COMMITTED,
            1964 => Self::CONFIG,
            1965 => Self::CONFLICT,
            1966 => Self::CONSTRAINT,
            1967 => Self::CUBE,
            1968 => Self::CURRENT,
            1969 => Self::DATA,
            1970 => Self::DATABASE,
            1971 => Self::DDL,
            1972 => Self::DECLARE,
            1973 => Self::DEFAULT,
            1974 => Self::DEFERRABLE,
            1975 => Self::DEFERRED,
            1976 => Self::DELEGATED,
            1977 => Self::DENY,
            1978 => Self::DESC,
            1979 => Self::EACH,
            1980 => Self::EMPTY,
            1981 => Self::EXPRESSION,
            1982 => Self::EXTENSION,
            1983 => Self::FINAL,
            1984 => Self::FIRST,
            1985 => Self::FORCE,
            1986 => Self::FROM,
            1987 => Self::FUNCTION,
            1988 => Self::FUTURE,
            1989 => Self::IMPLICIT,
            1990 => Self::INDEX,
            1991 => Self::INFIX,
            1992 => Self::INHERITABLE,
            1993 => Self::INSTANCE,
            1994 => Self::INTO,
            1995 => Self::ISOLATION,
            1996 => Self::JSON,
            1997 => Self::LAST,
            1998 => Self::LINK,
            1999 => Self::MIGRATION,
            2000 => Self::MULTI,
            2001 => Self::NAMED,
            2002 => Self::OBJECT,
            2003 => Self::OF,
            2004 => Self::ONLY,
            2005 => Self::ONTO,
            2006 => Self::OPERATOR,
            2007 => Self::OPTIONALITY,
            2008 => Self::ORDER,
            2009 => Self::ORPHAN,
            2010 => Self::OVERLOADED,
            2011 => Self::OWNED,
            2012 => Self::PACKAGE,
            2013 => Self::PERMISSION,
            2014 => Self::POLICY,
            2015 => Self::POPULATE,
            2016 => Self::POSTFIX,
            2017 => Self::PREFIX,
            2018 => Self::PROPERTY,
            2019 => Self::PROPOSED,
            2020 => Self::PSEUDO,
            2021 => Self::READ,
            2022 => Self::REJECT,
            2023 => Self::RELEASE,
            2024 => Self::RENAME,
            2025 => Self::REPEATABLE,
            2026 => Self::REQUIRED,
            2027 => Self::RESET,
            2028 => Self::RESTRICT,
            2029 => Self::REWRITE,
            2030 => Self::ROLE,
            2031 => Self::ROLES,
            2032 => Self::ROLLUP,
            2033 => Self::SAVEPOINT,
            2034 => Self::SCALAR,
            2035 => Self::SCHEMA,
            2036 => Self::SDL,
            2037 => Self::SERIALIZABLE,
            2038 => Self::SESSION,
            2039 => Self::SOURCE,
            2040 => Self::SUPERUSER,
            2041 => Self::SYSTEM,
            2042 => Self::TARGET,
            2043 => Self::TEMPLATE,
            2044 => Self::TERNARY,
            2045 => Self::TEXT,
            2046 => Self::THEN,
            2047 => Self::TO,
            2048 => Self::TRANSACTION,
            2049 => Self::TRIGGER,
            2050 => Self::TYPE,
            2051 => Self::UNLESS,
            2052 => Self::USING,
            2053 => Self::VERBOSE,
            2054 => Self::VERSION,
            2055 => Self::VIEW,
            _ => Self::WRITE,
        }
    }
}

impl FromId for Using {
    open spec fn has_production(id: usize) -> bool {
        id == 2057
    }

    open spec fn production_id(self) -> usize {
        match self {
            Self::USING_ParenExpr => 2057,
        }
    }

    fn from_id(_id: usize) -> Self {
        Self::USING_ParenExpr
    }
}

impl FromId for UsingClause {
    open spec fn has_production(id: usize) -> bool {
        id == 2058
    }

    open spec fn production_id(self) -> usize {
        match self {
            Self::USING_AliasedExprList => 2058,
        }
    }

    fn from_id(_id: usize) -> Self {
        Self::USING_AliasedExprList
    }
}

impl FromId for UsingStmt {
    open spec fn has_production(id: usize) -> bool {
        2059 <= id <= 2060
    }

    open spec fn production_id(self) -> usize {
        match self {
            Self::RESET_EXPRESSION => 2059,
            Self::USING_ParenExpr => 2060,
        }
    }

    fn from_id(id: usize) -> Self {
        match id {
            2059 => Self::RESET_EXPRESSION,
            _ => Self::USING_ParenExpr,
        }
    }
}

impl FromId for WithBlock {
    open spec fn has_production(id: usize) -> bool {
        id == 2061
    }

    open spec fn production_id(self) -> usize {
        match self {
            Self::WITH_WithDeclList => 2061,
        }
    }

    fn from_id(_id: usize) -> Self {
        Self::WITH_WithDeclList
    }
}

impl FromId for WithDDLStmt {
    open spec fn has_production(id: usize) -> bool {
        id == 2062
    }

    open spec fn production_id(self) -> usize {
        match self {
            Self::InnerDDLStmt => 2062,
        }
    }

    fn from_id(_id: usize) -> Self {
        Self::InnerDDLStmt
    }
}

impl FromId for WithDecl {
    open spec fn has_production(id: usize) -> bool {
        id == 2063
    }

    open spec fn production_id(self) -> usize {
        match self {
            Self::AliasDecl => 2063,
        }
    }

    fn from_id(_id: usize) -> Self {
        Self::AliasDecl
    }
}

impl FromId for WithDeclList {
    open spec fn has_production(id: usize) -> bool {
        2064 <= id <= 2065
    }

    open spec fn production_id(self) -> usize {
        match self {
            Self::WithDeclListInner => 2064,
            Self::WithDeclListInner_COMMA => 2065,
        }
    }

    fn from_id(id: usize) -> Self {
        match id {
            2064 => Self::WithDeclListInner,
            _ => Self::WithDeclListInner_COMMA,
        }
    }
}

impl FromId for WithDeclListInner {
    open spec fn has_production(id: usize) -> bool {
        2066 <= id <= 2067
    }

    open spec fn production_id(self) -> usize {
        match self {
            Self::WithDecl => 2066,
            Self::WithDeclListInner_COMMA_WithDecl => 2067,
        }
    }

    fn from_id(id: usize) -> Self {
        match id {
            2066 => Self::WithDecl,
            _ => Self::WithDeclListInner_COMMA_WithDecl,
        }
    }
}

} // verus!
